//! The target of a CONNECT request: an authority of the form `host:port`.
//!
//! The port is what follows the last `:` of the authority, and the host is
//! everything before it. An authority is well formed when its host is not
//! empty and its port is a decimal number that fits sixteen bits. Nothing
//! else is asked of the host: whether it names anything is for the dial to
//! find out.

use vstd::prelude::*;
use vstd::string::*;

verus! {

/// A decimal digit.
pub open spec fn is_digit(c: char) -> bool {
    '0' <= c <= '9'
}

/// The number a decimal digit stands for.
pub open spec fn digit_value(c: char) -> nat {
    (c as u32 - '0' as u32) as nat
}

/// The number a sequence of decimal digits stands for.
pub open spec fn decimal_value(p: Seq<char>) -> nat
    decreases p.len(),
{
    if p.len() == 0 {
        0
    } else {
        10 * decimal_value(p.drop_last()) + digit_value(p.last())
    }
}

/// Every character is a decimal digit.
pub open spec fn all_digits(p: Seq<char>) -> bool {
    forall|i: int| 0 <= i < p.len() ==> is_digit(#[trigger] p[i])
}

/// A port: one or more decimal digits whose value fits sixteen bits.
pub open spec fn is_port(p: Seq<char>) -> bool {
    &&& p.len() > 0
    &&& all_digits(p)
    &&& decimal_value(p) <= 65535
}

/// The index of the last `:` in `s`, or -1 where `s` holds none.
pub open spec fn last_colon(s: Seq<char>) -> int
    decreases s.len(),
{
    if s.len() == 0 {
        -1
    } else if s.last() == ':' {
        s.len() - 1
    } else {
        last_colon(s.drop_last())
    }
}

/// Why an authority is refused.
#[derive(Clone, Copy, Debug, PartialEq, Eq, Structural)]
pub enum MalformedTarget {
    /// The text holds no `:`, or nothing follows its last `:`.
    MissingPort,
    /// What follows the last `:` is not a decimal number below 65536.
    InvalidPort,
    /// Nothing stands before the last `:`.
    EmptyHost,
}

/// The first fault of an authority, or `None` where it is well formed.
///
/// The port is what follows the last `:`, the host what precedes it.
pub open spec fn fault(s: Seq<char>) -> Option<MalformedTarget> {
    let c = last_colon(s);
    if c < 0 || c == s.len() - 1 {
        Some(MalformedTarget::MissingPort)
    } else if !is_port(s.skip(c + 1)) {
        Some(MalformedTarget::InvalidPort)
    } else if c == 0 {
        Some(MalformedTarget::EmptyHost)
    } else {
        None
    }
}

/// An authority is well formed when it has no fault.
pub open spec fn well_formed(s: Seq<char>) -> bool {
    fault(s) is None
}

/// The host of an authority: what precedes its last `:`.
pub open spec fn host_of(s: Seq<char>) -> Seq<char> {
    s.take(last_colon(s))
}

/// The port that an authority names: the value of what follows its last `:`.
pub open spec fn port_of(s: Seq<char>) -> nat {
    decimal_value(s.skip(last_colon(s) + 1))
}

/// `last_colon` finds a `:` after which no other follows.
pub proof fn lemma_last_colon(s: Seq<char>)
    ensures
        -1 <= last_colon(s) < s.len(),
        last_colon(s) >= 0 ==> s[last_colon(s)] == ':',
        forall|j: int| last_colon(s) < j < s.len() ==> s[j] != ':',
    decreases s.len(),
{
    if s.len() > 0 && s.last() != ':' {
        let front = s.drop_last();
        lemma_last_colon(front);
        assert forall|j: int| last_colon(s) < j < s.len() implies s[j] != ':' by {
            if j < front.len() {
                assert(front[j] == s[j]);
            }
        }
    }
}

/// An index that holds a `:` with none after it is the last colon.
pub proof fn lemma_last_colon_unique(s: Seq<char>, c: int)
    requires
        -1 <= c < s.len(),
        c >= 0 ==> s[c] == ':',
        forall|j: int| c < j < s.len() ==> s[j] != ':',
    ensures
        last_colon(s) == c,
{
    lemma_last_colon(s);
}

/// An authority is well formed exactly when it is a host that is not empty,
/// a `:`, and a port.
pub proof fn lemma_well_formed_is_host_colon_port(s: Seq<char>)
    ensures
        well_formed(s) <==> exists|i: int|
            0 < i < s.len() && s[i] == ':' && is_port(#[trigger] s.skip(i + 1)),
{
    lemma_last_colon(s);
    let c = last_colon(s);
    if well_formed(s) {
        assert(0 < c < s.len() && s[c] == ':' && is_port(s.skip(c + 1)));
    }
    if exists|i: int| 0 < i < s.len() && s[i] == ':' && is_port(#[trigger] s.skip(i + 1)) {
        let i = choose|i: int| 0 < i < s.len() && s[i] == ':' && is_port(#[trigger] s.skip(i + 1));
        let port = s.skip(i + 1);
        assert forall|j: int| i < j < s.len() implies s[j] != ':' by {
            assert(is_digit(port[j - i - 1]));
        }
        lemma_last_colon_unique(s, i);
    }
}

/// A well-formed authority is its host, a `:` and the digits of its port, and
/// nothing else; its host is not empty and its port fits sixteen bits.
pub proof fn lemma_well_formed_parts(s: Seq<char>)
    requires
        well_formed(s),
    ensures
        0 < last_colon(s) < s.len() - 1,
        host_of(s).len() > 0,
        is_port(s.skip(last_colon(s) + 1)),
        port_of(s) <= 65535,
        s == host_of(s) + seq![':'] + s.skip(last_colon(s) + 1),
{
    lemma_last_colon(s);
    assert(s =~= host_of(s) + seq![':'] + s.skip(last_colon(s) + 1));
}

/// A decimal value as a reader holds it: exact up to the largest port, and
/// one more than that for every larger value.
pub(crate) open spec fn capped(value: nat) -> u32 {
    if value > 65535 {
        65536
    } else {
        value as u32
    }
}

/// Whether a character is a decimal digit.
pub(crate) fn is_decimal(c: char) -> (r: bool)
    ensures
        r == is_digit(c),
{
    '0' <= c && c <= '9'
}

/// The capped value of `digits` with one more digit behind them.
pub(crate) fn with_digit(value: u32, c: char, Ghost(digits): Ghost<Seq<char>>) -> (r: u32)
    requires
        value == capped(decimal_value(digits)),
        is_digit(c),
    ensures
        r == capped(decimal_value(digits.push(c))),
{
    let digit: u32 = c as u32 - 48;
    let next: u32 = value * 10 + digit;
    proof {
        assert(digits.push(c).drop_last() =~= digits);
        assert(digits.push(c).last() == c);
        assert(digit_value(c) == digit);
    }
    if next > 65535 {
        65536
    } else {
        next
    }
}

/// What a reader knows after the characters of `prefix`: where its last
/// colon is, whether only digits follow it, and their capped value if so.
spec fn scanned(prefix: Seq<char>, colon: Option<usize>, digits: bool, value: u32) -> bool {
    let tail = prefix.skip(last_colon(prefix) + 1);
    &&& match colon {
        Some(k) => last_colon(prefix) == k,
        None => last_colon(prefix) == -1,
    }
    &&& digits == all_digits(tail)
    &&& digits ==> value == capped(decimal_value(tail))
}

/// A validated CONNECT target. Its view is the authority it was read from,
/// which is always well formed.
#[derive(Debug, PartialEq, Eq)]
pub struct TunnelTarget {
    authority: String,
    colon: usize,
    port: u16,
}

impl View for TunnelTarget {
    type V = Seq<char>;

    closed spec fn view(&self) -> Seq<char> {
        self.authority@
    }
}

impl Clone for TunnelTarget {
    fn clone(&self) -> (r: Self)
        ensures
            r@ == self@,
    {
        proof {
            use_type_invariant(self);
        }
        TunnelTarget { authority: self.authority.clone(), colon: self.colon, port: self.port }
    }
}

impl TunnelTarget {
    #[verifier::type_invariant]
    spec fn inv(&self) -> bool {
        &&& well_formed(self.authority@)
        &&& self.colon == last_colon(self.authority@)
        &&& self.port == port_of(self.authority@)
    }

    /// Reads an authority. It succeeds exactly on the well-formed ones, and
    /// otherwise names the first fault.
    pub fn parse(authority: &str) -> (r: Result<TunnelTarget, MalformedTarget>)
        ensures
            match r {
                Ok(target) => well_formed(authority@) && target@ == authority@,
                Err(e) => fault(authority@) == Some(e),
            },
    {
        let ghost text = authority@;
        let n: usize = authority.unicode_len();
        let mut colon: Option<usize> = None;
        let mut digits: bool = true;
        let mut value: u32 = 0;
        let mut i: usize = 0;
        assert(text.take(0).skip(0) =~= Seq::<char>::empty());
        for c in it: authority.chars()
            invariant
                it.seq() == text,
                n == text.len(),
                i == it.index(),
                i <= n,
                scanned(text.take(i as int), colon, digits, value),
        {
            let ghost prefix = text.take(i as int);
            let ghost tail = prefix.skip(last_colon(prefix) + 1);
            let ghost longer = text.take(i + 1);
            proof {
                lemma_last_colon(prefix);
                assert(longer =~= prefix.push(c));
                assert(longer.drop_last() =~= prefix);
            }
            if c == ':' {
                colon = Some(i);
                digits = true;
                value = 0;
                assert(longer.skip(i + 1) =~= Seq::<char>::empty());
            } else {
                proof {
                    assert(longer.skip(last_colon(prefix) + 1) =~= tail.push(c));
                    if all_digits(tail.push(c)) {
                        assert forall|j: int| 0 <= j < tail.len() implies is_digit(
                            #[trigger] tail[j],
                        ) by {
                            assert(tail.push(c)[j] == tail[j]);
                        }
                        assert(tail.push(c)[tail.len() as int] == c);
                    }
                }
                if digits && is_decimal(c) {
                    value = with_digit(value, c, Ghost(tail));
                } else {
                    digits = false;
                }
            }
            i += 1;
        }
        proof {
            assert(text.take(n as int) =~= text);
            lemma_last_colon(text);
        }
        let at: usize = match colon {
            Some(at) => at,
            None => {
                return Err(MalformedTarget::MissingPort);
            },
        };
        if at == n - 1 {
            return Err(MalformedTarget::MissingPort);
        }
        if !digits || value > 65535 {
            return Err(MalformedTarget::InvalidPort);
        }
        if at == 0 {
            return Err(MalformedTarget::EmptyHost);
        }
        Ok(TunnelTarget { authority: authority.to_owned(), colon: at, port: value as u16 })
    }

    /// The authority as it was given, for dialling.
    pub fn authority(&self) -> (r: &str)
        ensures
            r@ == self@,
            well_formed(self@),
    {
        proof {
            use_type_invariant(self);
        }
        self.authority.as_str()
    }

    /// The host: everything before the last `:`, brackets included where it
    /// is an address literal.
    pub fn host(&self) -> (r: &str)
        ensures
            r@ == host_of(self@),
            r@.len() > 0,
    {
        proof {
            use_type_invariant(self);
            lemma_last_colon(self.authority@);
        }
        self.authority.as_str().substring_char(0, self.colon)
    }

    /// The port.
    pub fn port(&self) -> (r: u16)
        ensures
            r == port_of(self@),
    {
        proof {
            use_type_invariant(self);
        }
        self.port
    }
}

} // verus!
