//! What the service is started with: the model to load and the port to
//! listen on.

use vstd::prelude::*;

verus! {

/// The models that the service can load.
#[derive(Clone, Copy, Debug, PartialEq, Eq, Structural)]
pub enum Model {
    BgeSmallEnV15,
    BgeBaseEnV15,
    AllMiniLmL6V2,
}

/// The model chosen for a configured name, and whether the name was known.
#[derive(Clone, Copy, Debug, PartialEq, Eq, Structural)]
pub struct ModelChoice {
    pub model: Model,
    pub recognized: bool,
}

/// The identifier under which each model is configured.
pub open spec fn identifier_of(model: Model) -> Seq<char> {
    match model {
        Model::BgeSmallEnV15 => "BAAI/bge-small-en-v1.5"@,
        Model::BgeBaseEnV15 => "BAAI/bge-base-en-v1.5"@,
        Model::AllMiniLmL6V2 => "sentence-transformers/all-MiniLM-L6-v2"@,
    }
}

/// The model for a configured name: the one with that identifier, and the
/// default model for any other name.
pub open spec fn choice_for(name: Seq<char>) -> ModelChoice {
    if name == identifier_of(Model::BgeSmallEnV15) {
        ModelChoice { model: Model::BgeSmallEnV15, recognized: true }
    } else if name == identifier_of(Model::BgeBaseEnV15) {
        ModelChoice { model: Model::BgeBaseEnV15, recognized: true }
    } else if name == identifier_of(Model::AllMiniLmL6V2) {
        ModelChoice { model: Model::AllMiniLmL6V2, recognized: true }
    } else {
        ModelChoice { model: Model::BgeSmallEnV15, recognized: false }
    }
}

impl Model {
    /// The identifier under which this model is configured.
    pub fn identifier(self) -> (name: String)
        ensures
            name@ == identifier_of(self),
    {
        match self {
            Model::BgeSmallEnV15 => "BAAI/bge-small-en-v1.5".to_owned(),
            Model::BgeBaseEnV15 => "BAAI/bge-base-en-v1.5".to_owned(),
            Model::AllMiniLmL6V2 => "sentence-transformers/all-MiniLM-L6-v2".to_owned(),
        }
    }
}

impl Default for Model {
    fn default() -> (model: Model)
        ensures
            model == Model::BgeSmallEnV15,
    {
        Model::BgeSmallEnV15
    }
}

/// Chooses the model to load for a configured name. An unknown name never
/// fails: it selects the default model, and the choice says so.
pub fn select_model(name: &str) -> (choice: ModelChoice)
    ensures
        choice == choice_for(name@),
{
    let name = name.to_owned();
    if name == Model::BgeSmallEnV15.identifier() {
        ModelChoice { model: Model::BgeSmallEnV15, recognized: true }
    } else if name == Model::BgeBaseEnV15.identifier() {
        ModelChoice { model: Model::BgeBaseEnV15, recognized: true }
    } else if name == Model::AllMiniLmL6V2.identifier() {
        ModelChoice { model: Model::AllMiniLmL6V2, recognized: true }
    } else {
        ModelChoice { model: Model::default(), recognized: false }
    }
}

/// The port that the service listens on where none is configured.
pub fn default_port() -> (port: u16)
    ensures
        port == 8081,
{
    8081
}

/// The decimal digits.
pub open spec fn is_digit(c: char) -> bool {
    0x30 <= c as u32 <= 0x39
}

/// Whether `s` is made of decimal digits alone.
pub open spec fn all_digits(s: Seq<char>) -> bool {
    forall|i: int| 0 <= i < s.len() ==> is_digit(#[trigger] s[i])
}

/// The number that the digits `s` denote in base ten.
pub open spec fn decimal_value(s: Seq<char>) -> nat
    decreases s.len(),
{
    if s.len() == 0 {
        0
    } else {
        decimal_value(s.drop_last()) * 10 + (s.last() as u32 - 0x30) as nat
    }
}

/// `s` without the plus sign that may stand in front of a number.
pub open spec fn after_sign(s: Seq<char>) -> Seq<char> {
    if s.len() > 0 && s[0] == '+' {
        s.drop_first()
    } else {
        s
    }
}

/// The port that `s` denotes: `s` is an optional plus sign and then one or
/// more decimal digits, with nothing before or after, and their value is at
/// most 65535.
pub open spec fn port_of(s: Seq<char>) -> Option<u16> {
    let digits = after_sign(s);
    if digits.len() > 0 && all_digits(digits) && decimal_value(digits) <= u16::MAX {
        Some(decimal_value(digits) as u16)
    } else {
        None
    }
}

/// The value of digits is at least the value of any of their beginnings.
proof fn lemma_value_grows(s: Seq<char>, n: int)
    requires
        all_digits(s),
        0 <= n <= s.len(),
    ensures
        decimal_value(s.take(n)) <= decimal_value(s),
    decreases s.len(),
{
    if n == s.len() {
        assert(s.take(n) =~= s);
    } else {
        lemma_value_grows(s.drop_last(), n);
        assert(s.drop_last().take(n) =~= s.take(n));
    }
}

/// Reads a port number. The text is a number in base ten, as `port_of`
/// says; anything else, and any number above 65535, gives `None`.
pub fn parse_port(text: &str) -> (port: Option<u16>)
    ensures
        port == port_of(text@),
{
    let ghost digits = after_sign(text@);
    let ghost sign: int = text@.len() - digits.len();
    let mut value: u32 = 0;
    let mut any: bool = false;
    let mut first: bool = true;
    for c in it: text.chars()
        invariant
            it.seq() == text@,
            digits == after_sign(text@),
            sign == text@.len() - digits.len(),
            first == (it.index() == 0),
            !first ==> it.index() >= sign,
            any == (it.index() > sign),
            !first ==> all_digits(digits.take(it.index() - sign)),
            !first ==> value == decimal_value(digits.take(it.index() - sign)),
            first ==> value == 0,
            value <= u16::MAX,
    {
        let ghost k = it.index();
        if first && c == '+' {
            first = false;
            assert(sign == 1);
            assert(digits.take(0) =~= Seq::<char>::empty());
        } else {
            first = false;
            let code: u32 = c as u32;
            assert(digits[k - sign] == c);
            if code < 0x30 || code > 0x39 {
                return None;
            }
            value = value * 10 + (code - 0x30);
            any = true;
            proof {
                let read = digits.take(k - sign + 1);
                assert(read.drop_last() =~= digits.take(k - sign));
                assert(read.last() == c);
                assert(decimal_value(read) == decimal_value(read.drop_last()) * 10 + (code
                    - 0x30));
                if all_digits(digits) {
                    lemma_value_grows(digits, k - sign + 1);
                }
            }
            if value > 65535 {
                return None;
            }
        }
    }
    proof {
        if !first {
            assert(digits.take(digits.len() as int) =~= digits);
        }
    }
    if any {
        Some(value as u16)
    } else {
        None
    }
}

} // verus!
