use vstd::prelude::*;
use vstd::string::*;
use crate::catalog::names_are_distinct;
use crate::config::{fields, pairs, Config, ConfigModel, FieldModel, FieldValue};
use crate::step::{StepModel, StepValue};
use crate::text::{append_decimal, decimal, digit_text, strings};

verus! {

/// A text with its length in front, so that it can be told from whatever
/// follows it.
pub open spec fn sized(text: Seq<char>) -> Seq<char> {
    decimal(text.len()) + ":"@ + text
}

/// The texts of a list, each with its length in front, one after the
/// other.
pub open spec fn sized_each(list: Seq<Seq<char>>) -> Seq<char>
    decreases list.len(),
{
    if list.len() == 0 {
        Seq::empty()
    } else {
        sized(list[0]) + sized_each(list.skip(1))
    }
}

/// A list of texts with its length in front.
pub open spec fn counted(list: Seq<Seq<char>>) -> Seq<char> {
    decimal(list.len()) + ":"@ + sized_each(list)
}

/// The entries of a table, name and scalar each with its length in front.
pub open spec fn pair_codes(table: Seq<(Seq<char>, Seq<char>)>) -> Seq<char>
    decreases table.len(),
{
    if table.len() == 0 {
        Seq::empty()
    } else {
        sized(table[0].0) + sized(table[0].1) + pair_codes(table.skip(1))
    }
}

/// The value of a field: a letter for what it is, then what it holds.
pub open spec fn field_code(value: FieldModel) -> Seq<char> {
    match value {
        FieldModel::Null => "n"@,
        FieldModel::Text(text) => "t"@ + sized(text),
        FieldModel::List(list) => "l"@ + counted(list),
    }
}

/// The fields of a record, each name with its length in front and then
/// the field's value.
pub open spec fn field_codes(record: Seq<(Seq<char>, FieldModel)>) -> Seq<char>
    decreases record.len(),
{
    if record.len() == 0 {
        Seq::empty()
    } else {
        sized(record[0].0) + field_code(record[0].1) + field_codes(record.skip(1))
    }
}

/// A configuration: a letter for its shape, then what it holds.
pub open spec fn config_code(config: ConfigModel) -> Seq<char> {
    match config {
        ConfigModel::Nothing => "N"@,
        ConfigModel::Text(text) => "T"@ + sized(text),
        ConfigModel::List(list) => "L"@ + counted(list),
        ConfigModel::Table(table) => "M"@ + (decimal(table.len()) + ":"@ + pair_codes(table)),
        ConfigModel::Record(record) => "R"@ + (decimal(record.len()) + ":"@ + field_codes(record)),
    }
}

/// The fingerprint of a step: the name of its kind with its length in
/// front, then its configuration.
pub open spec fn fingerprint_of(step: StepModel) -> Seq<char> {
    sized(step.tag.spec_name()) + config_code(step.config)
}

/// Whether a character is a decimal digit.
pub open spec fn is_digit(c: char) -> bool {
    c == '0' || c == '1' || c == '2' || c == '3' || c == '4' || c == '5' || c == '6' || c == '7'
        || c == '8' || c == '9'
}

/// The number that a decimal digit stands for.
pub open spec fn digit_value(c: char) -> nat {
    if c == '1' {
        1
    } else if c == '2' {
        2
    } else if c == '3' {
        3
    } else if c == '4' {
        4
    } else if c == '5' {
        5
    } else if c == '6' {
        6
    } else if c == '7' {
        7
    } else if c == '8' {
        8
    } else if c == '9' {
        9
    } else {
        0
    }
}

/// The number that a text of decimal digits stands for.
pub open spec fn decimal_value(digits: Seq<char>) -> nat
    decreases digits.len(),
{
    if digits.len() == 0 {
        0
    } else {
        decimal_value(digits.drop_last()) * 10 + digit_value(digits.last())
    }
}

proof fn digit_texts_are_digits(d: nat)
    requires
        d < 10,
    ensures
        digit_text(d).len() == 1,
        is_digit(digit_text(d)[0]),
        digit_value(digit_text(d)[0]) == d,
{
    reveal_strlit("0");
    reveal_strlit("1");
    reveal_strlit("2");
    reveal_strlit("3");
    reveal_strlit("4");
    reveal_strlit("5");
    reveal_strlit("6");
    reveal_strlit("7");
    reveal_strlit("8");
    reveal_strlit("9");
}

/// A number written in decimal is one digit or more, nothing but digits,
/// and stands for that number.
pub proof fn decimal_is_digits(n: nat)
    ensures
        decimal(n).len() >= 1,
        forall|i: int| 0 <= i < decimal(n).len() ==> is_digit(#[trigger] decimal(n)[i]),
        decimal_value(decimal(n)) == n,
    decreases n,
{
    digit_texts_are_digits(n % 10);
    if n < 10 {
        let text = decimal(n);
        assert(text.drop_last().len() == 0);
        assert(decimal_value(text.drop_last()) == 0);
    } else {
        decimal_is_digits(n / 10);
        let front = decimal(n / 10);
        let text = decimal(n);
        assert(text.drop_last() =~= front);
        assert(text.last() == digit_text(n % 10)[0]);
        assert forall|i: int| 0 <= i < text.len() implies is_digit(#[trigger] text[i]) by {
            if i < front.len() {
                assert(text[i] == front[i]);
            }
        }
    }
}

/// Two numbers written in decimal, each followed by a colon and whatever
/// else: where the two texts are the same, so are the numbers and what
/// follows them.
pub proof fn decimal_parts(a: nat, after_a: Seq<char>, b: nat, after_b: Seq<char>)
    requires
        decimal(a) + ":"@ + after_a == decimal(b) + ":"@ + after_b,
    ensures
        a == b,
        after_a == after_b,
{
    reveal_strlit(":");
    decimal_is_digits(a);
    decimal_is_digits(b);
    let da = decimal(a);
    let db = decimal(b);
    let left = da + ":"@ + after_a;
    let right = db + ":"@ + after_b;
    if da.len() < db.len() {
        assert(left[da.len() as int] == ':');
        assert(right[da.len() as int] == db[da.len() as int]);
        assert(is_digit(db[da.len() as int]));
    } else if db.len() < da.len() {
        assert(right[db.len() as int] == ':');
        assert(left[db.len() as int] == da[db.len() as int]);
        assert(is_digit(da[db.len() as int]));
    } else {
        assert(da =~= left.subrange(0, da.len() as int));
        assert(db =~= right.subrange(0, db.len() as int));
        assert(after_a =~= left.subrange(da.len() as int + 1, left.len() as int));
        assert(after_b =~= right.subrange(db.len() as int + 1, right.len() as int));
    }
}

/// Two texts with their lengths in front, each followed by whatever else:
/// where the two wholes are the same, so are the texts and what follows
/// them.
pub proof fn sized_parts(a: Seq<char>, after_a: Seq<char>, b: Seq<char>, after_b: Seq<char>)
    requires
        sized(a) + after_a == sized(b) + after_b,
    ensures
        a == b,
        after_a == after_b,
{
    assert(sized(a) + after_a =~= decimal(a.len()) + ":"@ + (a + after_a));
    assert(sized(b) + after_b =~= decimal(b.len()) + ":"@ + (b + after_b));
    decimal_parts(a.len(), a + after_a, b.len(), b + after_b);
    let left = a + after_a;
    let right = b + after_b;
    assert(a =~= left.subrange(0, a.len() as int));
    assert(b =~= right.subrange(0, b.len() as int));
    assert(after_a =~= left.subrange(a.len() as int, left.len() as int));
    assert(after_b =~= right.subrange(b.len() as int, right.len() as int));
}

proof fn sized_each_parts(
    a: Seq<Seq<char>>,
    after_a: Seq<char>,
    b: Seq<Seq<char>>,
    after_b: Seq<char>,
)
    requires
        a.len() == b.len(),
        sized_each(a) + after_a == sized_each(b) + after_b,
    ensures
        a == b,
        after_a == after_b,
    decreases a.len(),
{
    if a.len() == 0 {
        assert(sized_each(a) + after_a =~= after_a);
        assert(sized_each(b) + after_b =~= after_b);
        assert(a =~= b);
    } else {
        let rest_a = sized_each(a.skip(1)) + after_a;
        let rest_b = sized_each(b.skip(1)) + after_b;
        assert(sized_each(a) + after_a =~= sized(a[0]) + rest_a);
        assert(sized_each(b) + after_b =~= sized(b[0]) + rest_b);
        sized_parts(a[0], rest_a, b[0], rest_b);
        sized_each_parts(a.skip(1), after_a, b.skip(1), after_b);
        assert(a =~= seq![a[0]] + a.skip(1));
        assert(b =~= seq![b[0]] + b.skip(1));
    }
}

proof fn counted_parts(a: Seq<Seq<char>>, after_a: Seq<char>, b: Seq<Seq<char>>, after_b: Seq<char>)
    requires
        counted(a) + after_a == counted(b) + after_b,
    ensures
        a == b,
        after_a == after_b,
{
    let rest_a = sized_each(a) + after_a;
    let rest_b = sized_each(b) + after_b;
    assert(counted(a) + after_a =~= decimal(a.len()) + ":"@ + rest_a);
    assert(counted(b) + after_b =~= decimal(b.len()) + ":"@ + rest_b);
    decimal_parts(a.len(), rest_a, b.len(), rest_b);
    sized_each_parts(a, after_a, b, after_b);
}

proof fn pair_codes_parts(a: Seq<(Seq<char>, Seq<char>)>, b: Seq<(Seq<char>, Seq<char>)>)
    requires
        a.len() == b.len(),
        pair_codes(a) == pair_codes(b),
    ensures
        a == b,
    decreases a.len(),
{
    if a.len() == 0 {
        assert(a =~= b);
    } else {
        let rest_a = sized(a[0].1) + pair_codes(a.skip(1));
        let rest_b = sized(b[0].1) + pair_codes(b.skip(1));
        assert(pair_codes(a) =~= sized(a[0].0) + rest_a);
        assert(pair_codes(b) =~= sized(b[0].0) + rest_b);
        sized_parts(a[0].0, rest_a, b[0].0, rest_b);
        sized_parts(a[0].1, pair_codes(a.skip(1)), b[0].1, pair_codes(b.skip(1)));
        pair_codes_parts(a.skip(1), b.skip(1));
        assert(a =~= seq![a[0]] + a.skip(1));
        assert(b =~= seq![b[0]] + b.skip(1));
    }
}

proof fn field_code_parts(a: FieldModel, after_a: Seq<char>, b: FieldModel, after_b: Seq<char>)
    requires
        field_code(a) + after_a == field_code(b) + after_b,
    ensures
        a == b,
        after_a == after_b,
{
    reveal_strlit("n");
    reveal_strlit("t");
    reveal_strlit("l");
    let left = field_code(a) + after_a;
    let right = field_code(b) + after_b;
    assert(left[0] == right[0]);
    assert(left[0] == field_code(a)[0]);
    assert(right[0] == field_code(b)[0]);
    assert(left.skip(1) == right.skip(1));
    match (a, b) {
        (FieldModel::Null, FieldModel::Null) => {
            assert(after_a =~= left.skip(1));
            assert(after_b =~= right.skip(1));
        },
        (FieldModel::Text(x), FieldModel::Text(y)) => {
            assert(left.skip(1) =~= sized(x) + after_a);
            assert(right.skip(1) =~= sized(y) + after_b);
            sized_parts(x, after_a, y, after_b);
        },
        (FieldModel::List(x), FieldModel::List(y)) => {
            assert(left.skip(1) =~= counted(x) + after_a);
            assert(right.skip(1) =~= counted(y) + after_b);
            counted_parts(x, after_a, y, after_b);
        },
        _ => {},
    }
}

proof fn field_codes_parts(a: Seq<(Seq<char>, FieldModel)>, b: Seq<(Seq<char>, FieldModel)>)
    requires
        a.len() == b.len(),
        field_codes(a) == field_codes(b),
    ensures
        a == b,
    decreases a.len(),
{
    if a.len() == 0 {
        assert(a =~= b);
    } else {
        let rest_a = field_code(a[0].1) + field_codes(a.skip(1));
        let rest_b = field_code(b[0].1) + field_codes(b.skip(1));
        assert(field_codes(a) =~= sized(a[0].0) + rest_a);
        assert(field_codes(b) =~= sized(b[0].0) + rest_b);
        sized_parts(a[0].0, rest_a, b[0].0, rest_b);
        field_code_parts(a[0].1, field_codes(a.skip(1)), b[0].1, field_codes(b.skip(1)));
        field_codes_parts(a.skip(1), b.skip(1));
        assert(a =~= seq![a[0]] + a.skip(1));
        assert(b =~= seq![b[0]] + b.skip(1));
    }
}

/// Two configurations with the same code hold the same.
pub proof fn config_code_is_injective(a: ConfigModel, b: ConfigModel)
    requires
        config_code(a) == config_code(b),
    ensures
        a == b,
{
    reveal_strlit("N");
    reveal_strlit("T");
    reveal_strlit("L");
    reveal_strlit("M");
    reveal_strlit("R");
    let left = config_code(a);
    let right = config_code(b);
    let none = Seq::<char>::empty();
    assert(left[0] == right[0]);
    assert(left.skip(1) == right.skip(1));
    match (a, b) {
        (ConfigModel::Nothing, ConfigModel::Nothing) => {},
        (ConfigModel::Text(x), ConfigModel::Text(y)) => {
            assert(left.skip(1) =~= sized(x) + none);
            assert(right.skip(1) =~= sized(y) + none);
            sized_parts(x, none, y, none);
        },
        (ConfigModel::List(x), ConfigModel::List(y)) => {
            assert(left.skip(1) =~= counted(x) + none);
            assert(right.skip(1) =~= counted(y) + none);
            counted_parts(x, none, y, none);
        },
        (ConfigModel::Table(x), ConfigModel::Table(y)) => {
            assert(left.skip(1) =~= decimal(x.len()) + ":"@ + pair_codes(x));
            assert(right.skip(1) =~= decimal(y.len()) + ":"@ + pair_codes(y));
            decimal_parts(x.len(), pair_codes(x), y.len(), pair_codes(y));
            pair_codes_parts(x, y);
        },
        (ConfigModel::Record(x), ConfigModel::Record(y)) => {
            assert(left.skip(1) =~= decimal(x.len()) + ":"@ + field_codes(x));
            assert(right.skip(1) =~= decimal(y.len()) + ":"@ + field_codes(y));
            decimal_parts(x.len(), field_codes(x), y.len(), field_codes(y));
            field_codes_parts(x, y);
        },
        _ => {},
    }
}

/// Two steps with the same fingerprint are of the same kind and have the
/// same configuration.
pub proof fn fingerprint_is_injective(a: StepModel, b: StepModel)
    requires
        fingerprint_of(a) == fingerprint_of(b),
    ensures
        a == b,
{
    sized_parts(a.tag.spec_name(), config_code(a.config), b.tag.spec_name(), config_code(b.config));
    names_are_distinct(a.tag, b.tag);
    config_code_is_injective(a.config, b.config);
}

proof fn sized_each_grows(list: Seq<Seq<char>>, text: Seq<char>)
    ensures
        sized_each(list.push(text)) == sized_each(list) + sized(text),
    decreases list.len(),
{
    let grown = list.push(text);
    if list.len() == 0 {
        reveal_with_fuel(sized_each, 2);
        assert(grown.skip(1) =~= Seq::<Seq<char>>::empty());
        assert(sized_each(grown) =~= sized_each(list) + sized(text));
    } else {
        sized_each_grows(list.skip(1), text);
        assert(grown.skip(1) =~= list.skip(1).push(text));
        assert(sized_each(grown) =~= sized_each(list) + sized(text));
    }
}

proof fn pair_codes_grow(table: Seq<(Seq<char>, Seq<char>)>, entry: (Seq<char>, Seq<char>))
    ensures
        pair_codes(table.push(entry)) == pair_codes(table) + (sized(entry.0) + sized(entry.1)),
    decreases table.len(),
{
    let grown = table.push(entry);
    if table.len() == 0 {
        reveal_with_fuel(pair_codes, 2);
        assert(grown.skip(1) =~= Seq::<(Seq<char>, Seq<char>)>::empty());
        assert(pair_codes(grown) =~= pair_codes(table) + (sized(entry.0) + sized(entry.1)));
    } else {
        pair_codes_grow(table.skip(1), entry);
        assert(grown.skip(1) =~= table.skip(1).push(entry));
        assert(pair_codes(grown) =~= pair_codes(table) + (sized(entry.0) + sized(entry.1)));
    }
}

proof fn field_codes_grow(record: Seq<(Seq<char>, FieldModel)>, entry: (Seq<char>, FieldModel))
    ensures
        field_codes(record.push(entry)) == field_codes(record) + (sized(entry.0) + field_code(
            entry.1,
        )),
    decreases record.len(),
{
    let grown = record.push(entry);
    if record.len() == 0 {
        reveal_with_fuel(field_codes, 2);
        assert(grown.skip(1) =~= Seq::<(Seq<char>, FieldModel)>::empty());
        assert(field_codes(grown) =~= field_codes(record) + (sized(entry.0) + field_code(entry.1)));
    } else {
        field_codes_grow(record.skip(1), entry);
        assert(grown.skip(1) =~= record.skip(1).push(entry));
        assert(field_codes(grown) =~= field_codes(record) + (sized(entry.0) + field_code(entry.1)));
    }
}

fn append_sized(out: &mut String, text: &str)
    ensures
        final(out)@ == old(out)@ + sized(text@),
{
    append_decimal(out, text.unicode_len());
    out.append(":");
    out.append(text);
    proof {
        assert(out@ =~= old(out)@ + sized(text@));
    }
}

fn append_sized_each(out: &mut String, list: &Vec<String>)
    ensures
        final(out)@ == old(out)@ + sized_each(strings(list@)),
{
    let ghost start = out@;
    let mut i: usize = 0;
    proof {
        assert(out@ =~= start + sized_each(strings(list@).take(0)));
    }
    while i < list.len()
        invariant
            i <= list.len(),
            out@ == start + sized_each(strings(list@).take(i as int)),
        decreases list.len() - i,
    {
        append_sized(out, list[i].as_str());
        proof {
            let done = strings(list@).take(i as int);
            sized_each_grows(done, list@[i as int]@);
            assert(done.push(list@[i as int]@) =~= strings(list@).take(i + 1));
            assert(out@ =~= start + sized_each(strings(list@).take(i + 1)));
        }
        i += 1;
    }
    proof {
        assert(strings(list@).take(i as int) =~= strings(list@));
    }
}

fn append_counted(out: &mut String, list: &Vec<String>)
    ensures
        final(out)@ == old(out)@ + counted(strings(list@)),
{
    append_decimal(out, list.len());
    out.append(":");
    append_sized_each(out, list);
    proof {
        assert(out@ =~= old(out)@ + counted(strings(list@)));
    }
}

fn append_field_code(out: &mut String, value: &FieldValue)
    ensures
        final(out)@ == old(out)@ + field_code(value@),
{
    match value {
        FieldValue::Null => {
            out.append("n");
        },
        FieldValue::Text(text) => {
            out.append("t");
            append_sized(out, text.as_str());
            proof {
                assert(out@ =~= old(out)@ + field_code(value@));
            }
        },
        FieldValue::List(list) => {
            out.append("l");
            append_counted(out, list);
            proof {
                assert(out@ =~= old(out)@ + field_code(value@));
            }
        },
    }
}

fn append_pair_codes(out: &mut String, table: &Vec<(String, String)>)
    ensures
        final(out)@ == old(out)@ + pair_codes(pairs(table@)),
{
    let ghost start = out@;
    let mut i: usize = 0;
    proof {
        assert(out@ =~= start + pair_codes(pairs(table@).take(0)));
    }
    while i < table.len()
        invariant
            i <= table.len(),
            out@ == start + pair_codes(pairs(table@).take(i as int)),
        decreases table.len() - i,
    {
        let entry = &table[i];
        append_sized(out, entry.0.as_str());
        append_sized(out, entry.1.as_str());
        proof {
            let done = pairs(table@).take(i as int);
            let next = (table@[i as int].0@, table@[i as int].1@);
            pair_codes_grow(done, next);
            assert(done.push(next) =~= pairs(table@).take(i + 1));
            assert(out@ =~= start + pair_codes(pairs(table@).take(i + 1)));
        }
        i += 1;
    }
    proof {
        assert(pairs(table@).take(i as int) =~= pairs(table@));
    }
}

fn append_field_codes(out: &mut String, record: &Vec<(String, FieldValue)>)
    ensures
        final(out)@ == old(out)@ + field_codes(fields(record@)),
{
    let ghost start = out@;
    let mut i: usize = 0;
    proof {
        assert(out@ =~= start + field_codes(fields(record@).take(0)));
    }
    while i < record.len()
        invariant
            i <= record.len(),
            out@ == start + field_codes(fields(record@).take(i as int)),
        decreases record.len() - i,
    {
        let entry = &record[i];
        append_sized(out, entry.0.as_str());
        append_field_code(out, &entry.1);
        proof {
            let done = fields(record@).take(i as int);
            let next = (record@[i as int].0@, record@[i as int].1@);
            field_codes_grow(done, next);
            assert(done.push(next) =~= fields(record@).take(i + 1));
            assert(out@ =~= start + field_codes(fields(record@).take(i + 1)));
        }
        i += 1;
    }
    proof {
        assert(fields(record@).take(i as int) =~= fields(record@));
    }
}

fn append_config_code(out: &mut String, config: &Config)
    ensures
        final(out)@ == old(out)@ + config_code(config@),
{
    match config {
        Config::Nothing => {
            out.append("N");
        },
        Config::Text(text) => {
            out.append("T");
            append_sized(out, text.as_str());
        },
        Config::List(list) => {
            out.append("L");
            append_counted(out, list);
        },
        Config::Table(table) => {
            out.append("M");
            append_decimal(out, table.len());
            out.append(":");
            append_pair_codes(out, table);
        },
        Config::Record(record) => {
            out.append("R");
            append_decimal(out, record.len());
            out.append(":");
            append_field_codes(out, record);
        },
    }
    proof {
        assert(out@ =~= old(out)@ + config_code(config@));
    }
}

impl StepValue {
    /// The step's fingerprint: a text that two steps share only where
    /// they are of the same kind and have the same configuration.
    pub fn fingerprint(&self) -> (words: String)
        ensures
            words@ == fingerprint_of(self@),
    {
        let mut out = String::new();
        append_sized(&mut out, self.tag().name());
        append_config_code(&mut out, self.config());
        proof {
            assert(out@ =~= fingerprint_of(self@));
        }
        out
    }
}

} // verus!
