use vstd::prelude::*;
use vstd::string::StringExecFns;
use crate::text::{chars_of, digit_char, int_text, integer_to_string, nat_text, same_text};

verus! {

/// A 64-bit IEEE number, held by what stands for it: its bit pattern, and its decimal text.
#[derive(Debug, PartialEq, Eq)]
pub struct Float {
    pub bits: u64,
    pub encoded: String,
}

/// A number at run time. The three representations stay apart: a value never moves from one
/// to another.
#[derive(Debug, PartialEq, Eq)]
pub enum Number {
    Integer(i64),
    Float(Float),
    BigInteger(String),
}

/// A value at run time.
#[derive(Debug, PartialEq, Eq)]
pub enum Value {
    String(String),
    Number(Number),
    Bool(bool),
    Null,
    Bytes(Vec<u8>),
    Regex(String),
}

/// What a `Number` is.
pub enum NumberView {
    Integer(int),
    Float { bits: u64, encoded: Seq<char> },
    BigInteger(Seq<char>),
}

/// What a `Value` is.
pub enum ValueView {
    String(Seq<char>),
    Number(NumberView),
    Bool(bool),
    Null,
    Bytes(Seq<u8>),
    Regex(Seq<char>),
}

impl View for Float {
    type V = NumberView;

    open spec fn view(&self) -> NumberView {
        NumberView::Float { bits: self.bits, encoded: self.encoded@ }
    }
}

impl View for Number {
    type V = NumberView;

    open spec fn view(&self) -> NumberView {
        match *self {
            Number::Integer(i) => NumberView::Integer(i as int),
            Number::Float(f) => f@,
            Number::BigInteger(s) => NumberView::BigInteger(s@),
        }
    }
}

impl View for Value {
    type V = ValueView;

    open spec fn view(&self) -> ValueView {
        match *self {
            Value::String(s) => ValueView::String(s@),
            Value::Number(n) => ValueView::Number(n@),
            Value::Bool(b) => ValueView::Bool(b),
            Value::Null => ValueView::Null,
            Value::Bytes(b) => ValueView::Bytes(b@),
            Value::Regex(p) => ValueView::Regex(p@),
        }
    }
}

impl NumberView {
    /// The text that writes the number: the decimal digits of an integer, the text that
    /// came with a float or with a big integer.
    pub open spec fn text(self) -> Seq<char> {
        match self {
            NumberView::Integer(i) => int_text(i),
            NumberView::Float { encoded, .. } => encoded,
            NumberView::BigInteger(digits) => digits,
        }
    }
}

impl ValueView {
    /// Whether the value can stand in a text: a string, a number, a boolean or null can,
    /// bytes and a regular expression cannot.
    pub open spec fn is_renderable(self) -> bool {
        !(self is Bytes) && !(self is Regex)
    }

    /// The text that the value stands for in a template, where it is renderable.
    pub open spec fn text(self) -> Seq<char> {
        match self {
            ValueView::String(s) => s,
            ValueView::Number(n) => n.text(),
            ValueView::Bool(b) => if b { "true"@ } else { "false"@ },
            ValueView::Null => "null"@,
            ValueView::Bytes(_) => Seq::empty(),
            ValueView::Regex(_) => Seq::empty(),
        }
    }
}

impl Clone for Float {
    fn clone(&self) -> (copy: Self)
        ensures
            copy@ == self@,
    {
        Float { bits: self.bits, encoded: self.encoded.clone() }
    }
}

impl Clone for Number {
    fn clone(&self) -> (copy: Self)
        ensures
            copy@ == self@,
    {
        match self {
            Number::Integer(i) => Number::Integer(*i),
            Number::Float(f) => Number::Float(f.clone()),
            Number::BigInteger(digits) => Number::BigInteger(digits.clone()),
        }
    }
}

impl Clone for Value {
    fn clone(&self) -> (copy: Self)
        ensures
            copy@ == self@,
    {
        match self {
            Value::String(s) => Value::String(s.clone()),
            Value::Number(n) => Value::Number(n.clone()),
            Value::Bool(b) => Value::Bool(*b),
            Value::Null => Value::Null,
            Value::Bytes(bytes) => Value::Bytes(bytes.clone()),
            Value::Regex(pattern) => Value::Regex(pattern.clone()),
        }
    }
}

impl Number {
    /// The text that writes the number.
    pub fn to_string(&self) -> (s: String)
        ensures
            s@ == self@.text(),
    {
        match self {
            Number::Integer(i) => integer_to_string(*i),
            Number::Float(f) => f.encoded.clone(),
            Number::BigInteger(digits) => digits.clone(),
        }
    }
}

impl Value {
    /// Whether the value can stand in a text.
    pub fn is_renderable(&self) -> (b: bool)
        ensures
            b == self@.is_renderable(),
    {
        match self {
            Value::Bytes(_) => false,
            Value::Regex(_) => false,
            _ => true,
        }
    }

    /// The text that the value stands for in a template; `None` where it has none.
    pub fn render(&self) -> (text: Option<String>)
        ensures
            text is Some <==> self@.is_renderable(),
            text is Some ==> text->0@ == self@.text(),
    {
        match self {
            Value::String(s) => Some(s.clone()),
            Value::Number(n) => Some(n.to_string()),
            Value::Bool(b) => if *b {
                Some(String::from_str("true"))
            } else {
                Some(String::from_str("false"))
            },
            Value::Null => Some(String::from_str("null")),
            Value::Bytes(_) => None,
            Value::Regex(_) => None,
        }
    }
}

/// Whether `c` is one of the ten digits.
pub open spec fn is_digit(c: char) -> bool {
    48 <= c as u32 <= 57
}

/// Whether `text` is a run of digits, at least one.
pub open spec fn is_digits(text: Seq<char>) -> bool {
    text.len() > 0 && forall|i: int| 0 <= i < text.len() ==> is_digit(#[trigger] text[i])
}

/// The number that a run of digits writes in base ten.
pub open spec fn digits_value(text: Seq<char>) -> nat
    decreases text.len(),
{
    if text.len() == 0 {
        0
    } else {
        (digits_value(text.drop_last()) * 10 + (text.last() as u32 - 48)) as nat
    }
}

/// The integer that `text` writes: digits, with or without a minus sign before them.
pub open spec fn decimal_value(text: Seq<char>) -> Option<int> {
    if text.len() > 0 && text[0] == '-' {
        if is_digits(text.skip(1)) {
            Some(-(digits_value(text.skip(1)) as int))
        } else {
            None
        }
    } else if is_digits(text) {
        Some(digits_value(text) as int)
    } else {
        None
    }
}

/// The number that an integer literal stands for: an integer where it fits in 64 bits
/// with a sign, else a big integer that keeps the literal as it was written.
pub open spec fn number_of_text(text: Seq<char>) -> Option<NumberView> {
    match decimal_value(text) {
        None => None,
        Some(value) => if i64::MIN <= value <= i64::MAX {
            Some(NumberView::Integer(value))
        } else {
            Some(NumberView::BigInteger(text))
        },
    }
}

impl Number {
    /// Reads an integer literal. `None` where `text` is no integer literal.
    pub fn parse(text: &str) -> (number: Option<Number>)
        ensures
            number is Some <==> number_of_text(text@) is Some,
            number is Some ==> Some(number->0@) == number_of_text(text@),
    {
        let chars = chars_of(text);
        let negative = chars.len() > 0 && chars[0] == '-';
        let start: usize = if negative { 1 } else { 0 };
        let ghost digits = chars@.skip(start as int);
        if chars.len() == start {
            return None;
        }
        let mut magnitude: u64 = 0;
        let mut big = false;
        let mut i: usize = start;
        while i < chars.len()
            invariant
                start <= i <= chars.len(),
                chars@ == text@,
                negative == (chars.len() > 0 && chars@[0] == '-'),
                start == if negative { 1usize } else { 0usize },
                digits == chars@.skip(start as int),
                forall|j: int| start <= j < i ==> is_digit(#[trigger] chars@[j]),
                !big ==> magnitude == digits_value(chars@.subrange(start as int, i as int)),
                big ==> digits_value(chars@.subrange(start as int, i as int)) > u64::MAX,
            decreases chars.len() - i,
        {
            let c = chars[i];
            let code = c as u32;
            if code < 48 || code > 57 {
                assert(!is_digit(digits[i - start]));
                return None;
            }
            assert(chars@.subrange(start as int, i as int + 1).drop_last() =~= chars@.subrange(
                start as int,
                i as int,
            ));
            let digit: u64 = (code - 48) as u64;
            if !big {
                if magnitude > (u64::MAX - digit) / 10 {
                    big = true;
                } else {
                    magnitude = magnitude * 10 + digit;
                }
            }
            i = i + 1;
        }
        assert(is_digits(digits));
        assert(!negative ==> digits =~= text@);
        if big {
            Some(Number::BigInteger(String::from_str(text)))
        } else if negative {
            if magnitude <= 0x7fff_ffff_ffff_ffff {
                Some(Number::Integer(-(magnitude as i64)))
            } else if magnitude == 0x8000_0000_0000_0000 {
                Some(Number::Integer(i64::MIN))
            } else {
                Some(Number::BigInteger(String::from_str(text)))
            }
        } else {
            if magnitude <= 0x7fff_ffff_ffff_ffff {
                Some(Number::Integer(magnitude as i64))
            } else {
                Some(Number::BigInteger(String::from_str(text)))
            }
        }
    }
}

/// The value that a text given from outside, as on the command line, stands for: `true`,
/// `false` and `null` are themselves, an integer literal is its number, a text that the
/// caller has read as a float is that float, and every other text is a string. `float`
/// holds the bits of the float that the caller has read `text` as, if it has.
pub open spec fn value_of_text(text: Seq<char>, float: Option<u64>) -> ValueView {
    if text == "true"@ {
        ValueView::Bool(true)
    } else if text == "false"@ {
        ValueView::Bool(false)
    } else if text == "null"@ {
        ValueView::Null
    } else if number_of_text(text) is Some {
        ValueView::Number(number_of_text(text)->0)
    } else if float is Some {
        ValueView::Number(NumberView::Float { bits: float->0, encoded: text })
    } else {
        ValueView::String(text)
    }
}

impl Value {
    /// The value that a text given from outside stands for.
    pub fn parse(text: &str, float: Option<u64>) -> (value: Value)
        ensures
            value@ == value_of_text(text@, float),
    {
        if same_text(text, "true") {
            return Value::Bool(true);
        }
        if same_text(text, "false") {
            return Value::Bool(false);
        }
        if same_text(text, "null") {
            return Value::Null;
        }
        if let Some(number) = Number::parse(text) {
            return Value::Number(number);
        }
        match float {
            Some(bits) => Value::Number(
                Number::Float(Float { bits, encoded: String::from_str(text) }),
            ),
            None => Value::String(String::from_str(text)),
        }
    }
}

/// The decimal text of a natural number is a run of digits that writes that number.
pub proof fn lemma_nat_text_is_digits(n: nat)
    ensures
        is_digits(nat_text(n)),
        digits_value(nat_text(n)) == n,
    decreases n,
{
    if n < 10 {
        let text = seq![digit_char(n as int)];
        assert(digits_value(text.drop_last()) == 0);
    } else {
        lemma_nat_text_is_digits(n / 10);
        let text = nat_text(n);
        assert(text.drop_last() =~= nat_text(n / 10));
        assert(is_digits(text));
    }
}

/// Writing an integer and reading it back gives the same integer: an integer keeps its
/// value on its way through a text.
pub proof fn lemma_integer_round_trip(i: i64)
    ensures
        number_of_text(NumberView::Integer(i as int).text()) == Some(NumberView::Integer(i as int)),
{
    let text = int_text(i as int);
    if i < 0 {
        let digits = nat_text((-i) as nat);
        lemma_nat_text_is_digits((-i) as nat);
        assert(text.skip(1) =~= digits);
    } else {
        lemma_nat_text_is_digits(i as nat);
    }
}

/// An integer literal that does not fit in 64 bits is kept as it was written, character
/// for character, and is written back so.
pub proof fn lemma_big_integer_keeps_text(text: Seq<char>)
    requires
        decimal_value(text) matches Some(value) && !(i64::MIN <= value <= i64::MAX),
    ensures
        number_of_text(text) == Some(NumberView::BigInteger(text)),
        number_of_text(text)->0.text() == text,
{
}

} // verus!
