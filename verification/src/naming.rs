//! The names that are derived from the name of a metrics struct and of its
//! fields.
use vstd::prelude::*;
use vstd::string::StringExecFns;

verus! {

/// The snake case form of a string, as `heck` defines it.
pub uninterp spec fn snake_case_of(s: Seq<char>) -> Seq<char>;

/// `heck::ToSnakeCase::to_snake_case` for `str`: the string in snake
/// case. Trusted; what snake case is, is `heck`'s business.
#[verifier::external_body]
fn to_snake_case(s: &str) -> (snake: String)
    ensures
        snake@ == snake_case_of(s@),
{
    heck::ToSnakeCase::to_snake_case(s)
}

/// `String::push`: appends one character. Trusted.
#[verifier::external_body]
fn string_push(s: &mut String, c: char)
    ensures
        final(s)@ == old(s)@.push(c),
{
    s.push(c)
}

/// A decimal digit.
pub open spec fn is_digit(c: char) -> bool {
    '0' <= c <= '9'
}

/// A number starts at `pos`: a digit that follows a character that is not
/// a digit.
pub open spec fn starts_number(s: Seq<char>, pos: int) -> bool {
    0 < pos < s.len() && is_digit(s[pos]) && !is_digit(s[pos - 1])
}

/// The string with an underscore put before every number that does not
/// stand at the start.
pub open spec fn numbers_apart(s: Seq<char>) -> Seq<char>
    decreases s.len(),
{
    if s.len() == 0 {
        s
    } else if starts_number(s, s.len() - 1) {
        numbers_apart(s.drop_last()).push('_').push(s.last())
    } else {
        numbers_apart(s.drop_last()).push(s.last())
    }
}

/// Puts an underscore before every number in `s` that does not stand at
/// the start.
pub fn split_numbers(s: &str) -> (out: String)
    ensures
        out@ == numbers_apart(s@),
{
    let mut out = String::new();
    let mut after_digit = false;
    let mut at_start = true;
    let ghost mut seen: Seq<char> = Seq::empty();
    for c in it: s.chars()
        invariant
            it.seq() == s@,
            seen == s@.take(it.index() as int),
            out@ == numbers_apart(seen),
            after_digit == (seen.len() > 0 && is_digit(seen.last())),
            at_start == (seen.len() == 0),
    {
        let digit = c >= '0' && c <= '9';
        proof {
            let next = s@.take(it.index() + 1);
            assert(next.drop_last() =~= seen);
            assert(next.last() == c);
            assert(starts_number(next, next.len() - 1) == (digit && seen.len() > 0 && !after_digit));
            seen = next;
        }
        if digit && !after_digit && !at_start {
            string_push(&mut out, '_');
        }
        string_push(&mut out, c);
        after_digit = digit;
        at_start = false;
    }
    assert(s@.take(s@.len() as int) =~= s@);
    out
}

/// The snake case form of `s`, with numbers as words of their own: for
/// `Hello2You`, `heck` gives `hello2_you` and this gives `hello_2_you`.
pub fn snakify(s: &str) -> (name: String)
    ensures
        name@ == numbers_apart(snake_case_of(s@)),
{
    let snake = to_snake_case(s);
    split_numbers(snake.as_str())
}

/// The number that a string of decimal digits stands for; none where a
/// character is not a digit.
pub open spec fn digits_number(s: Seq<char>) -> Option<int>
    decreases s.len(),
{
    if s.len() == 0 {
        Some(0)
    } else {
        match digits_number(s.drop_last()) {
            Some(value) if is_digit(s.last()) => Some(10 * value + (s.last() as int - '0' as int)),
            _ => None,
        }
    }
}

/// The string without the plus sign that it may start with.
pub open spec fn unsigned_part(s: Seq<char>) -> Seq<char> {
    if s.len() > 0 && s[0] == '+' {
        s.drop_first()
    } else {
        s
    }
}

/// The `usize` that a string is the decimal notation of: one or more
/// digits, after an optional plus sign, of a number that fits.
pub open spec fn parsed_usize(s: Seq<char>) -> Option<usize> {
    let digits = unsigned_part(s);
    match digits_number(digits) {
        Some(value) if digits.len() > 0 && value <= usize::MAX => Some(value as usize),
        _ => None,
    }
}

/// Reads a `usize` in decimal notation, as `str::parse` does.
pub fn parse_usize(s: &str) -> (number: Option<usize>)
    ensures
        number == parsed_usize(s@),
{
    let mut value: Option<usize> = Some(0);
    let mut any_digit = false;
    let mut at_start = true;
    let ghost mut digits: Seq<char> = Seq::empty();
    for c in it: s.chars()
        invariant
            it.seq() == s@,
            at_start == (it.index() == 0),
            digits == unsigned_part(s@).take(
                if it.index() > 0 && s@[0] == '+' {
                    it.index() - 1
                } else {
                    it.index() as int
                },
            ),
            any_digit == (digits.len() > 0),
            value == match digits_number(digits) {
                Some(number) if number <= usize::MAX => Some(number as usize),
                _ => None,
            },
            digits_number(digits) matches Some(number) ==> number >= 0,
    {
        if at_start && c == '+' {
            at_start = false;
            assert(digits =~= unsigned_part(s@).take(0));
        } else {
            at_start = false;
            let digit = c >= '0' && c <= '9';
            proof {
                let next = digits.push(c);
                assert(next.drop_last() =~= digits);
                let body = unsigned_part(s@);
                assert(next =~= body.take(digits.len() as int + 1));
                digits = next;
            }
            any_digit = true;
            value = match value {
                Some(number) if digit => {
                    let d: usize = (c as u32 - '0' as u32) as usize;
                    match number.checked_mul(10) {
                        Some(tens) => tens.checked_add(d),
                        None => None,
                    }
                },
                _ => None,
            };
        }
    }
    proof {
        let body = unsigned_part(s@);
        assert(digits =~= body);
    }
    if any_digit {
        value
    } else {
        None
    }
}

/// The strings of `parts` one after the other.
pub open spec fn joined(parts: Seq<String>) -> Seq<char>
    decreases parts.len(),
{
    if parts.len() == 0 {
        Seq::empty()
    } else {
        joined(parts.drop_last()) + parts.last()@
    }
}

/// The strings of `parts` one after the other, with nothing between them.
pub fn join(parts: &Vec<String>) -> (whole: String)
    ensures
        whole@ == joined(parts@),
{
    let mut whole = String::new();
    let mut i: usize = 0;
    while i < parts.len()
        invariant
            i <= parts.len(),
            whole@ == joined(parts@.take(i as int)),
        decreases parts.len() - i,
    {
        assert(parts@.take(i + 1).drop_last() =~= parts@.take(i as int));
        whole.append(parts[i].as_str());
        i += 1;
    }
    assert(parts@.take(parts.len() as int) =~= parts@);
    whole
}

/// The type of a field of a metrics struct, as far as it is read: a single
/// identifier, a longer path given by its tokens, or anything else, given
/// as it is written.
pub enum FieldType {
    Ident(String),
    Path(Vec<String>),
    Other(String),
}

/// What a field of a metrics struct declares.
pub enum MacroFieldType {
    Counter,
    Gauge,
    CounterWithTags(usize),
    Unknown(String),
}

/// A declaration as contracts see it.
pub enum FieldKind {
    Counter,
    Gauge,
    CounterWithTags(usize),
    Unknown(Seq<char>),
}

impl View for MacroFieldType {
    type V = FieldKind;

    open spec fn view(&self) -> FieldKind {
        match self {
            MacroFieldType::Counter => FieldKind::Counter,
            MacroFieldType::Gauge => FieldKind::Gauge,
            MacroFieldType::CounterWithTags(max_tags) => FieldKind::CounterWithTags(*max_tags),
            MacroFieldType::Unknown(s) => FieldKind::Unknown(s@),
        }
    }
}

/// What a field of type `ty` declares: `Counter` and `Gauge` by name, a
/// counter with tags by a path of four tokens of which the second and the
/// last are angle brackets and the third is the number of slots, and
/// anything else is unknown and kept as it is written.
pub open spec fn declared(ty: FieldType) -> FieldKind {
    match ty {
        FieldType::Ident(name) => if name@ == "Counter"@ {
            FieldKind::Counter
        } else if name@ == "Gauge"@ {
            FieldKind::Gauge
        } else {
            FieldKind::Unknown(name@)
        },
        FieldType::Path(tokens) => if tokens.len() == 4 && tokens[1]@ == "<"@ && tokens[3]@ == ">"@
            && parsed_usize(tokens[2]@) is Some {
            FieldKind::CounterWithTags(parsed_usize(tokens[2]@)->0)
        } else {
            FieldKind::Unknown(joined(tokens@))
        },
        FieldType::Other(written) => FieldKind::Unknown(written@),
    }
}

impl MacroFieldType {
    /// Reads what a field of type `ty` declares.
    pub fn classify(ty: &FieldType) -> (kind: MacroFieldType)
        ensures
            kind@ == declared(*ty),
    {
        match ty {
            FieldType::Ident(name) => {
                if *name == "Counter".to_owned() {
                    MacroFieldType::Counter
                } else if *name == "Gauge".to_owned() {
                    MacroFieldType::Gauge
                } else {
                    MacroFieldType::Unknown(name.clone())
                }
            },
            FieldType::Path(tokens) => {
                if tokens.len() == 4 && tokens[1] == "<".to_owned() && tokens[3] == ">".to_owned() {
                    if let Some(max_tags) = parse_usize(tokens[2].as_str()) {
                        return MacroFieldType::CounterWithTags(max_tags);
                    }
                }
                MacroFieldType::Unknown(join(tokens))
            },
            FieldType::Other(written) => MacroFieldType::Unknown(written.clone()),
        }
    }
}

/// The name of the function that resolves the tags of one field:
/// the struct's name in snake case, the field's name, and `tags_get`,
/// joined by underscores.
pub fn generate_tags_global_fn(user_struct_name: &str, field_name: &str) -> (name: String)
    ensures
        name@ == numbers_apart(snake_case_of(user_struct_name@)) + "_"@ + field_name@ + "_tags_get"@,
{
    let mut name = snakify(user_struct_name);
    name.append("_");
    name.append(field_name);
    name.append("_tags_get");
    name
}

} // verus!
