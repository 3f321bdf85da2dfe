//! Literal text: integer and character literal decoding and range checks.
use vstd::prelude::*;
use crate::checker::{diag, TypeChecker};
use crate::diag::{text_from_str, text_of, DiagKind, Span};
use crate::props::{bit_width, is_integer_ty};
use crate::ty::Ty;

verus! {

/// The text with every `_` removed.
pub open spec fn strip_underscores(s: Seq<char>) -> Seq<char>
    decreases s.len(),
{
    if s.len() == 0 {
        s
    } else if s.last() == '_' {
        strip_underscores(s.drop_last())
    } else {
        strip_underscores(s.drop_last()).push(s.last())
    }
}

pub open spec fn is_digit_in(c: char, radix: nat) -> bool {
    ||| ('0' <= c <= '9' && (c as nat) - ('0' as nat) < radix)
    ||| (radix == 16 && 'a' <= c <= 'f')
    ||| (radix == 16 && 'A' <= c <= 'F')
}

pub open spec fn digit_of(c: char) -> nat {
    if '0' <= c <= '9' {
        ((c as nat) - ('0' as nat)) as nat
    } else if 'a' <= c <= 'f' {
        ((c as nat) - ('a' as nat) + 10) as nat
    } else {
        ((c as nat) - ('A' as nat) + 10) as nat
    }
}

pub open spec fn all_digits(s: Seq<char>, radix: nat) -> bool {
    forall|i: int| 0 <= i < s.len() ==> is_digit_in(#[trigger] s[i], radix)
}

/// The number written by the digits `s` in base `radix`.
pub open spec fn digits_value(s: Seq<char>, radix: nat) -> nat
    decreases s.len(),
{
    if s.len() == 0 {
        0
    } else {
        digits_value(s.drop_last(), radix) * radix + digit_of(s.last())
    }
}

pub open spec fn has_hex_prefix(n: Seq<char>) -> bool {
    n.len() >= 2 && n[0] == '0' && (n[1] == 'x' || n[1] == 'X')
}

/// Digits of `s` parsed in `radix`, after an optional leading `+`, as an
/// unsigned 128-bit number.
pub open spec fn parse_unsigned(s: Seq<char>, radix: nat) -> Option<u128> {
    let digits = if s.len() > 0 && s[0] == '+' { s.skip(1) } else { s };
    if digits.len() > 0 && all_digits(digits, radix) && digits_value(digits, radix)
        <= u128::MAX {
        Some(digits_value(digits, radix) as u128)
    } else {
        None
    }
}

/// The value of an integer literal: underscores are ignored, a `0x`/`0X`
/// prefix selects hexadecimal, otherwise the digits are decimal.
pub open spec fn integer_literal_value(raw: Seq<char>) -> Option<u128> {
    let n = strip_underscores(raw);
    if has_hex_prefix(n) {
        parse_unsigned(n.skip(2), 16)
    } else {
        parse_unsigned(n, 10)
    }
}

proof fn lemma_digits_value_monotone(s: Seq<char>, radix: nat, i: int, j: int)
    requires
        radix >= 1,
        0 <= i <= j <= s.len(),
    ensures
        digits_value(s.take(i), radix) <= digits_value(s.take(j), radix),
    decreases j - i,
{
    if i < j {
        lemma_digits_value_monotone(s, radix, i, j - 1);
        assert(s.take(j).drop_last() =~= s.take(j - 1));
        let v = digits_value(s.take(j - 1), radix);
        assert(v * radix >= v) by (nonlinear_arith)
            requires
                radix >= 1,
        ;
    }
}

fn strip_underscores_exec(raw: &str) -> (r: Vec<char>)
    ensures
        r@ == strip_underscores(raw@),
{
    let len = raw.unicode_len();
    let mut out: Vec<char> = Vec::new();
    let mut i: usize = 0;
    while i < len
        invariant
            len == raw@.len(),
            i <= len,
            out@ == strip_underscores(raw@.take(i as int)),
        decreases len - i,
    {
        let c = raw.get_char(i);
        assert(raw@.take(i + 1).drop_last() =~= raw@.take(i as int));
        if c != '_' {
            out.push(c);
        }
        i += 1;
    }
    assert(raw@.take(len as int) =~= raw@);
    out
}

fn digit_value(c: char, radix: u128) -> (r: Option<u128>)
    requires
        radix == 10 || radix == 16,
    ensures
        r is Some <==> is_digit_in(c, radix as nat),
        r matches Some(d) ==> d == digit_of(c) && d < radix,
{
    if '0' <= c && c <= '9' {
        let d = (c as u32 - '0' as u32) as u128;
        if d < radix {
            Some(d)
        } else {
            None
        }
    } else if radix == 16 && 'a' <= c && c <= 'f' {
        Some((c as u32 - 'a' as u32 + 10) as u128)
    } else if radix == 16 && 'A' <= c && c <= 'F' {
        Some((c as u32 - 'A' as u32 + 10) as u128)
    } else {
        None
    }
}

fn parse_unsigned_exec(n: &Vec<char>, start: usize, radix: u128) -> (r: Option<u128>)
    requires
        start <= n@.len(),
        radix == 10 || radix == 16,
    ensures
        r == parse_unsigned(n@.skip(start as int), radix as nat),
{
    let ghost s = n@.skip(start as int);
    let mut first = start;
    if first < n.len() && n[first] == '+' {
        first = first + 1;
    }
    let ghost digits = if s.len() > 0 && s[0] == '+' { s.skip(1) } else { s };
    assert(digits =~= n@.skip(first as int));
    if first >= n.len() {
        return None;
    }
    let mut acc: u128 = 0;
    let mut i: usize = first;
    while i < n.len()
        invariant
            first <= i <= n@.len(),
            digits == n@.skip(first as int),
            s == n@.skip(start as int),
            digits == (if s.len() > 0 && s[0] == '+' { s.skip(1) } else { s }),
            radix == 10 || radix == 16,
            all_digits(digits.take(i - first), radix as nat),
            acc == digits_value(digits.take(i - first), radix as nat),
        decreases n@.len() - i,
    {
        let k: Ghost<int> = Ghost(i - first);
        assert(digits.take(k@ + 1).drop_last() =~= digits.take(k@));
        assert(digits[k@] == n@[i as int]);
        let d = match digit_value(n[i], radix) {
            Some(d) => d,
            None => {
                assert(!is_digit_in(digits[k@], radix as nat));
                return None;
            },
        };
        let next = match acc.checked_mul(radix) {
            Some(m) => m.checked_add(d),
            None => None,
        };
        match next {
            Some(v) => {
                acc = v;
            },
            None => {
                proof {
                    if all_digits(digits, radix as nat) {
                        lemma_digits_value_monotone(digits, radix as nat, k@ + 1, digits.len() as int);
                        assert(digits.take(digits.len() as int) =~= digits);
                        assert(acc * radix + d >= acc * radix);
                    }
                }
                return None;
            },
        }
        assert(all_digits(digits.take(k@ + 1), radix as nat)) by {
            assert forall|j: int| 0 <= j < k@ + 1 implies is_digit_in(
                #[trigger] digits.take(k@ + 1)[j],
                radix as nat,
            ) by {
                if j < k@ {
                    assert(digits.take(k@ + 1)[j] == digits.take(k@)[j]);
                }
            }
        }
        i = i + 1;
    }
    assert(digits.take(digits.len() as int) =~= digits);
    Some(acc)
}

/// The value of an integer literal (see [`integer_literal_value`]).
pub fn parse_integer_literal_u128(raw: &str) -> (r: Option<u128>)
    ensures
        r == integer_literal_value(raw@),
{
    let n = strip_underscores_exec(raw);
    if n.len() >= 2 && n[0] == '0' && (n[1] == 'x' || n[1] == 'X') {
        parse_unsigned_exec(&n, 2, 16)
    } else {
        assert(n@.skip(0) =~= n@);
        parse_unsigned_exec(&n, 0, 10)
    }
}

/// The largest magnitude a negated literal and a plain literal may have for
/// an integer (or char) type.
pub open spec fn abs_limits(t: Ty) -> Option<(u128, u128)> {
    match t {
        Ty::I8 => Some((128, 127)),
        Ty::I16 => Some((32768, 32767)),
        Ty::I32 => Some((2147483648, 2147483647)),
        Ty::I64 => Some((9223372036854775808, 9223372036854775807)),
        Ty::Char => Some((0, 255)),
        Ty::U8 => Some((0, 255)),
        Ty::U16 => Some((0, 65535)),
        Ty::U32 => Some((0, 4294967295)),
        Ty::U64 => Some((0, 18446744073709551615)),
        Ty::Usize => Some((0, usize::MAX as u128)),
        _ => None,
    }
}

pub fn integer_abs_limits(t: &Ty) -> (r: Option<(u128, u128)>)
    ensures
        r == abs_limits(*t),
{
    match t {
        Ty::I8 => Some((128, 127)),
        Ty::I16 => Some((32768, 32767)),
        Ty::I32 => Some((2147483648, 2147483647)),
        Ty::I64 => Some((9223372036854775808, 9223372036854775807)),
        Ty::Char => Some((0, 255)),
        Ty::U8 => Some((0, 255)),
        Ty::U16 => Some((0, 65535)),
        Ty::U32 => Some((0, 4294967295)),
        Ty::U64 => Some((0, 18446744073709551615)),
        Ty::Usize => Some((0, usize::MAX as u128)),
        _ => None,
    }
}

pub open spec fn hex_value(c: char) -> Option<nat> {
    if is_digit_in(c, 16) {
        Some(digit_of(c))
    } else {
        None
    }
}

/// The byte an escape sequence (the text after the backslash) stands for.
pub open spec fn escape_byte(e: Seq<char>) -> Option<u8> {
    if (e.len() == 1 && e[0] == '\'') {
        Some(39)
    } else if (e.len() == 1 && e[0] == '"') {
        Some(34)
    } else if (e.len() == 1 && e[0] == '\\') {
        Some(92)
    } else if (e.len() == 1 && e[0] == '0') {
        Some(0)
    } else if (e.len() == 1 && e[0] == 'n') {
        Some(10)
    } else if (e.len() == 1 && e[0] == 'r') {
        Some(13)
    } else if (e.len() == 1 && e[0] == 't') {
        Some(9)
    } else if e.len() == 3 && e[0] == 'x' {
        if e[1] == '+' {
            match hex_value(e[2]) {
                Some(v) => Some(v as u8),
                None => None,
            }
        } else {
            match (hex_value(e[1]), hex_value(e[2])) {
                (Some(h), Some(l)) => Some((h * 16 + l) as u8),
                _ => None,
            }
        }
    } else {
        None
    }
}

/// The byte a character literal (with its quotes) stands for: a single
/// character whose code is at most 255, or an escape sequence.
pub open spec fn char_literal_byte(raw: Seq<char>) -> Option<u8> {
    if raw.len() >= 2 && raw[0] == '\'' && raw.last() == '\'' {
        let inner = raw.subrange(1, raw.len() - 1);
        if inner.len() > 0 && inner[0] == '\\' {
            escape_byte(inner.skip(1))
        } else if inner.len() == 1 && (inner[0] as u32) <= 255 {
            Some(inner[0] as u8)
        } else {
            None
        }
    } else {
        None
    }
}

fn hex_digit(c: char) -> (r: Option<u8>)
    ensures
        r matches Some(v) ==> hex_value(c) == Some(v as nat),
        r is None ==> hex_value(c) is None,
{
    if '0' <= c && c <= '9' {
        Some((c as u32 - '0' as u32) as u8)
    } else if 'a' <= c && c <= 'f' {
        Some((c as u32 - 'a' as u32 + 10) as u8)
    } else if 'A' <= c && c <= 'F' {
        Some((c as u32 - 'A' as u32 + 10) as u8)
    } else {
        None
    }
}

/// The byte a character literal stands for (see [`char_literal_byte`]).
pub fn decode_char_literal_byte(raw: &str) -> (r: Option<u8>)
    ensures
        r == char_literal_byte(raw@),
{
    let len = raw.unicode_len();
    if len < 2 || raw.get_char(0) != '\'' || raw.get_char(len - 1) != '\'' {
        return None;
    }
    let ghost inner = raw@.subrange(1, raw@.len() - 1);
    let n = len - 2;
    if n > 0 && raw.get_char(1) == '\\' {
        let ghost e = inner.skip(1);
        let m = n - 1;
        assert(e.len() == m);
        assert(forall|k: int| 0 <= k < m ==> e[k] == raw@[k + 2]);
        if m == 1 {
            let c = raw.get_char(2);
            assert(e[0] == c);
            if c == '\'' {
                return Some(39);
            } else if c == '"' {
                return Some(34);
            } else if c == '\\' {
                return Some(92);
            } else if c == '0' {
                return Some(0);
            } else if c == 'n' {
                return Some(10);
            } else if c == 'r' {
                return Some(13);
            } else if c == 't' {
                return Some(9);
            }
            return None;
        }
        if m == 3 && raw.get_char(2) == 'x' {
            let c1 = raw.get_char(3);
            let c2 = raw.get_char(4);
            if c1 == '+' {
                return hex_digit(c2);
            }
            return match (hex_digit(c1), hex_digit(c2)) {
                (Some(h), Some(l)) => Some(h * 16 + l),
                _ => None,
            };
        }
        return None;
    }
    if n == 1 {
        let c = raw.get_char(1);
        assert(inner[0] == c);
        if (c as u32) <= 255 {
            return Some(c as u8);
        }
    }
    None
}

impl TypeChecker {
    /// Reports an integer literal that is not a number, or whose value does
    /// not fit the literal's integer type (the negated bound applies when the
    /// literal is negated).
    pub fn check_integer_literal_range(&mut self, span: Span, raw: &str, ty: &Ty, negated: bool)
        ensures
            final(self).same_context(*old(self)),
            final(self).diagnostics@ == match integer_literal_value(raw@) {
                None => old(self).diagnostics@.push(diag(span, DiagKind::IntegerLiteralInvalid)),
                Some(value) => match abs_limits(*ty) {
                    Some((min_abs, max)) if value > (if negated { min_abs } else { max }) => old(
                        self,
                    ).diagnostics@.push(
                        diag(span, DiagKind::IntegerLiteralOutOfRange { literal: text_of(raw@), ty: *ty }),
                    ),
                    _ => old(self).diagnostics@,
                },
            },
    {
        let value = match parse_integer_literal_u128(raw) {
            Some(v) => v,
            None => {
                self.report(span, DiagKind::IntegerLiteralInvalid);
                return ;
            },
        };
        let (min_abs, max) = match integer_abs_limits(ty) {
            Some(l) => l,
            None => return ,
        };
        let limit = if negated {
            min_abs
        } else {
            max
        };
        if value > limit {
            self.report(
                span,
                DiagKind::IntegerLiteralOutOfRange { literal: text_from_str(raw), ty: crate::ty::copy_ty(ty) },
            );
        }
    }

    /// Reports a character literal that does not denote a single byte.
    pub fn check_char_literal_range(&mut self, span: Span, raw: &str)
        ensures
            final(self).same_context(*old(self)),
            final(self).diagnostics@ == if char_literal_byte(raw@) is None {
                old(self).diagnostics@.push(diag(span, DiagKind::CharLiteralNotSingleByte { literal: text_of(raw@) }))
            } else {
                old(self).diagnostics@
            },
    {
        if decode_char_literal_byte(raw).is_none() {
            self.report(span, DiagKind::CharLiteralNotSingleByte { literal: text_from_str(raw) });
        }
    }
}

} // verus!
