//! Typed reading of raw configuration values.
use vstd::prelude::*;
use vstd::string::*;

verus! {

/// A raw leaf value of one configuration source: files give typed values,
/// environment variables give text.
#[derive(Debug)]
pub enum ConfigValue {
    Boolean(bool),
    Integer(i64),
    Text(String),
}

pub open spec fn is_digit(c: char) -> bool {
    '0' <= c && c <= '9'
}

pub open spec fn digit_value(c: char) -> int {
    c as int - '0' as int
}

/// Every character is an ASCII decimal digit and there is at least one.
pub open spec fn is_decimal(s: Seq<char>) -> bool {
    s.len() > 0 && forall|i: int| 0 <= i < s.len() ==> is_digit(#[trigger] s[i])
}

/// The number that a string of decimal digits denotes.
pub open spec fn decimal_value(s: Seq<char>) -> int
    decreases s.len(),
{
    if s.len() == 0 {
        0
    } else {
        decimal_value(s.drop_last()) * 10 + digit_value(s.last())
    }
}

/// The port that a raw value denotes, if any: an integer in range, or
/// decimal text whose value is in range.
pub open spec fn port_of(v: ConfigValue) -> Option<u16> {
    match v {
        ConfigValue::Integer(n) => if 0 <= n <= 65535 {
            Some(n as u16)
        } else {
            None
        },
        ConfigValue::Text(s) => if is_decimal(s@) && decimal_value(s@) <= 65535 {
            Some(decimal_value(s@) as u16)
        } else {
            None
        },
        ConfigValue::Boolean(_) => None,
    }
}

proof fn lemma_decimal_nonneg(s: Seq<char>)
    requires
        forall|i: int| 0 <= i < s.len() ==> is_digit(#[trigger] s[i]),
    ensures
        decimal_value(s) >= 0,
    decreases s.len(),
{
    if s.len() > 0 {
        lemma_decimal_nonneg(s.drop_last());
    }
}

/// A longer run of digits never denotes a smaller number.
proof fn lemma_decimal_grows(s: Seq<char>, k: int)
    requires
        0 <= k <= s.len(),
        forall|i: int| 0 <= i < s.len() ==> is_digit(#[trigger] s[i]),
    ensures
        decimal_value(s.subrange(0, k)) <= decimal_value(s),
    decreases s.len() - k,
{
    if k < s.len() {
        lemma_decimal_grows(s, k + 1);
        let t = s.subrange(0, k + 1);
        assert(t.drop_last() =~= s.subrange(0, k));
        lemma_decimal_nonneg(s.subrange(0, k));
    } else {
        assert(s.subrange(0, k) =~= s);
    }
}

/// Reads a port number written in decimal.
pub fn parse_port(s: &str) -> (r: Option<u16>)
    ensures
        r == (if is_decimal(s@) && decimal_value(s@) <= 65535 {
            Some(decimal_value(s@) as u16)
        } else {
            None
        }),
{
    let n: usize = s.unicode_len();
    if n == 0 {
        return None;
    }
    let mut acc: u32 = 0;
    let mut i: usize = 0;
    while i < n
        invariant
            n == s@.len(),
            0 <= i <= n,
            forall|j: int| 0 <= j < i ==> is_digit(#[trigger] s@[j]),
            acc as int == decimal_value(s@.subrange(0, i as int)),
            acc <= 65535,
        decreases n - i,
    {
        let c = s.get_char(i);
        if !('0' <= c && c <= '9') {
            return None;
        }
        let d: u32 = (c as u32) - ('0' as u32);
        proof {
            let t = s@.subrange(0, i as int + 1);
            assert(t.drop_last() =~= s@.subrange(0, i as int));
        }
        acc = acc * 10 + d;
        i = i + 1;
        if acc > 65535 {
            proof {
                lemma_decimal_grows(s@.subrange(0, i as int), i as int);
                assert(s@.subrange(0, i as int).subrange(0, i as int) =~= s@.subrange(0, i as int));
                if forall|j: int| 0 <= j < n ==> is_digit(#[trigger] s@[j]) {
                    lemma_decimal_grows(s@, i as int);
                }
            }
            return None;
        }
    }
    proof {
        assert(s@.subrange(0, n as int) =~= s@);
    }
    Some(acc as u16)
}

/// Reads a raw value as a port.
pub fn to_port(v: &ConfigValue) -> (r: Option<u16>)
    ensures
        r == port_of(*v),
{
    match v {
        ConfigValue::Integer(n) => {
            if 0 <= *n && *n <= 65535 {
                Some(*n as u16)
            } else {
                None
            }
        },
        ConfigValue::Text(s) => parse_port(s.as_str()),
        ConfigValue::Boolean(_) => None,
    }
}

/// Two strings hold the same characters.
pub fn same_text(a: &str, b: &str) -> (r: bool)
    ensures
        r == (a@ == b@),
{
    let n: usize = a.unicode_len();
    let m: usize = b.unicode_len();
    if n != m {
        return false;
    }
    let mut i: usize = 0;
    while i < n
        invariant
            n == a@.len(),
            n == b@.len(),
            0 <= i <= n,
            forall|j: int| 0 <= j < i ==> a@[j] == b@[j],
        decreases n - i,
    {
        if a.get_char(i) != b.get_char(i) {
            return false;
        }
        i = i + 1;
    }
    proof {
        assert(a@ =~= b@);
    }
    true
}

/// What `str::to_lowercase` gives for a string.
pub uninterp spec fn lower_of(s: Seq<char>) -> Seq<char>;

/// Relies on `str::to_lowercase`: the result depends on the characters alone.
#[verifier::external_body]
pub(crate) fn lowercase(s: &str) -> (r: String)
    ensures
        r@ == lower_of(s@),
{
    s.to_lowercase()
}

/// The text that a raw value denotes, if any.
/// A boolean or an integer is read as the text that writes it.
pub open spec fn text_of(v: ConfigValue) -> Option<Seq<char>> {
    match v {
        ConfigValue::Text(s) => Some(s@),
        ConfigValue::Boolean(b) => Some(if b {
            "true"@
        } else {
            "false"@
        }),
        ConfigValue::Integer(n) => Some(integer_text_of(n as int)),
    }
}

/// What `i64::to_string` gives for a number.
pub uninterp spec fn integer_text_of(n: int) -> Seq<char>;

/// Relies on `ToString` for `i64`: the decimal text of the number, which
/// depends on the number alone.
#[verifier::external_body]
fn integer_text(n: i64) -> (r: String)
    ensures
        r@ == integer_text_of(n as int),
{
    n.to_string()
}

/// Lower-cased words read as true.
pub open spec fn is_true_word(w: Seq<char>) -> bool {
    w == "1"@ || w == "true"@ || w == "on"@ || w == "yes"@
}

/// Lower-cased words read as false.
pub open spec fn is_false_word(w: Seq<char>) -> bool {
    w == "0"@ || w == "false"@ || w == "off"@ || w == "no"@
}

/// The flag that a raw value denotes, if any: a boolean, an integer
/// (true when non-zero), or one of the words above in any letter case.
pub open spec fn flag_of(v: ConfigValue) -> Option<bool> {
    match v {
        ConfigValue::Boolean(b) => Some(b),
        ConfigValue::Integer(n) => Some(n != 0),
        ConfigValue::Text(s) => if is_true_word(lower_of(s@)) {
            Some(true)
        } else if is_false_word(lower_of(s@)) {
            Some(false)
        } else {
            None
        },
    }
}

/// Reads a raw value as text.
pub fn to_text(v: &ConfigValue) -> (r: String)
    ensures
        text_of(*v) == Some(r@),
{
    match v {
        ConfigValue::Text(s) => s.clone(),
        ConfigValue::Boolean(b) => if *b {
            String::from_str("true")
        } else {
            String::from_str("false")
        },
        ConfigValue::Integer(n) => integer_text(*n),
    }
}

/// Reads a raw value as a flag.
pub fn to_flag(v: &ConfigValue) -> (r: Option<bool>)
    ensures
        r == flag_of(*v),
{
    match v {
        ConfigValue::Boolean(b) => Some(*b),
        ConfigValue::Integer(n) => Some(*n != 0),
        ConfigValue::Text(s) => {
            let w = lowercase(s.as_str());
            let w = w.as_str();
            if same_text(w, "1") || same_text(w, "true") || same_text(w, "on") || same_text(w, "yes") {
                Some(true)
            } else if same_text(w, "0") || same_text(w, "false") || same_text(w, "off") || same_text(w, "no") {
                Some(false)
            } else {
                None
            }
        },
    }
}

} // verus!
