//! The textual names of the networks: how a network is written, and how a
//! name is read back whatever the case of its letters.

use crate::network::NetworkType;
use vstd::prelude::*;
use vstd::string::*;

verus! {

/// The text that was handed to the parser and names no network.
#[derive(Debug, PartialEq, Eq)]
pub struct ParseError {
    pub input: String,
}

/// The lower-case form of an ASCII capital; any other character is itself.
pub open spec fn lower(c: char) -> char {
    if 'A' <= c && c <= 'Z' {
        ((c as u8 + 32) as u8) as char
    } else {
        c
    }
}

/// A text with each ASCII capital replaced by its lower-case form.
pub open spec fn fold_case(s: Seq<char>) -> Seq<char> {
    Seq::new(s.len(), |i: int| lower(s[i]))
}

/// The capital of an ASCII lower-case letter; any other character is itself.
pub open spec fn upper(c: char) -> char {
    if 'a' <= c && c <= 'z' {
        ((c as u8 - 32) as u8) as char
    } else {
        c
    }
}

/// `s` is `name` written in some mix of upper and lower case: at each place
/// stands the character of `name` or its capital.
pub open spec fn is_casing_of(s: Seq<char>, name: Seq<char>) -> bool {
    &&& s.len() == name.len()
    &&& forall|i: int| 0 <= i < s.len() ==> s[i] == name[i] || s[i] == upper(name[i])
}

/// The network that a text names, if it names one. Case is ignored; nothing
/// else is: no blank is skipped and no abbreviation is known.
pub open spec fn parse_spec(s: Seq<char>) -> Option<NetworkType> {
    let folded = fold_case(s);
    if folded == NetworkType::Mainnet.name() {
        Some(NetworkType::Mainnet)
    } else if folded == NetworkType::Testnet.name() {
        Some(NetworkType::Testnet)
    } else if folded == NetworkType::Simnet.name() {
        Some(NetworkType::Simnet)
    } else if folded == NetworkType::Devnet.name() {
        Some(NetworkType::Devnet)
    } else {
        None
    }
}

fn to_lower(c: char) -> (r: char)
    ensures
        r == lower(c),
{
    if 'A' <= c && c <= 'Z' {
        ((c as u8) + 32) as char
    } else {
        c
    }
}

/// Whether `s`, with its capitals folded, is `name`.
fn folds_to(s: &str, name: &str) -> (same: bool)
    ensures
        same == (fold_case(s@) == name@),
{
    let n: usize = name.unicode_len();
    if s.unicode_len() != n {
        return false;
    }
    let mut i: usize = 0;
    while i < n
        invariant
            i <= n,
            n == name@.len(),
            n == s@.len(),
            forall|j: int| 0 <= j < i ==> lower(s@[j]) == name@[j],
        decreases n - i,
    {
        if to_lower(s.get_char(i)) != name.get_char(i) {
            assert(fold_case(s@)[i as int] != name@[i as int]);
            return false;
        }
        i += 1;
    }
    assert(fold_case(s@) =~= name@);
    true
}

impl NetworkType {
    /// The canonical name of a network, in lower case.
    pub open spec fn name(self) -> Seq<char> {
        match self {
            NetworkType::Mainnet => "mainnet"@,
            NetworkType::Testnet => "testnet"@,
            NetworkType::Simnet => "simnet"@,
            NetworkType::Devnet => "devnet"@,
        }
    }

    /// Writes a network by its canonical name.
    pub fn to_string(&self) -> (text: String)
        ensures
            text@ == self.name(),
    {
        let name = match self {
            NetworkType::Mainnet => "mainnet",
            NetworkType::Testnet => "testnet",
            NetworkType::Simnet => "simnet",
            NetworkType::Devnet => "devnet",
        };
        name.to_owned()
    }
}

impl std::str::FromStr for NetworkType {
    type Err = ParseError;

    /// Reads a network from its name, in any mix of upper and lower case.
    /// A text that names no network comes back in the error, unchanged.
    fn from_str(s: &str) -> (parsed: Result<NetworkType, ParseError>)
        ensures
            match parsed {
                Ok(network) => parse_spec(s@) == Some(network),
                Err(e) => parse_spec(s@) is None && e.input@ == s@,
            },
    {
        if folds_to(s, "mainnet") {
            Ok(NetworkType::Mainnet)
        } else if folds_to(s, "testnet") {
            Ok(NetworkType::Testnet)
        } else if folds_to(s, "simnet") {
            Ok(NetworkType::Simnet)
        } else if folds_to(s, "devnet") {
            Ok(NetworkType::Devnet)
        } else {
            Err(ParseError { input: s.to_owned() })
        }
    }
}

/// A text without capitals is what `s` folds to exactly when `s` is one of
/// its casings.
pub proof fn lemma_fold_case_casing(s: Seq<char>, name: Seq<char>)
    requires
        forall|i: int| 0 <= i < name.len() ==> !('A' <= #[trigger] name[i] && name[i] <= 'Z'),
    ensures
        is_casing_of(s, name) <==> fold_case(s) == name,
{
    if is_casing_of(s, name) {
        assert(fold_case(s) =~= name);
    }
    if fold_case(s) == name {
        assert forall|i: int| 0 <= i < s.len() implies s[i] == name[i] || s[i] == upper(
            name[i],
        ) by {
            assert(fold_case(s)[i] == lower(s[i]));
        }
    }
}

/// The four names are in lower case throughout, six or seven letters long,
/// and no two networks share one.
pub proof fn lemma_names(a: NetworkType, b: NetworkType)
    ensures
        a.name().len() == 6 || a.name().len() == 7,
        forall|i: int| 0 <= i < a.name().len() ==> 'a' <= #[trigger] a.name()[i] && a.name()[i] <= 'z',
        fold_case(a.name()) == a.name(),
        a.name() == b.name() <==> a == b,
{
    reveal_strlit("mainnet");
    reveal_strlit("testnet");
    reveal_strlit("simnet");
    reveal_strlit("devnet");
    assert(fold_case(a.name()) =~= a.name());
    if a != b && a.name() == b.name() {
        assert(a.name()[0] == b.name()[0]);
        assert(a.name().len() == b.name().len());
    }
}

/// Reading what was written gives the network back.
pub proof fn lemma_parse_format_round_trip(network: NetworkType)
    ensures
        parse_spec(network.name()) == Some(network),
{
    lemma_names(network, NetworkType::Mainnet);
    lemma_names(network, NetworkType::Testnet);
    lemma_names(network, NetworkType::Simnet);
    lemma_names(network, NetworkType::Devnet);
}

/// A text is read as a network exactly when it is the network's name in some
/// mix of upper and lower case. Every other text is refused.
pub proof fn lemma_parse_any_casing(s: Seq<char>, network: NetworkType)
    ensures
        parse_spec(s) == Some(network) <==> is_casing_of(s, network.name()),
        parse_spec(s) is None <==> forall|n: NetworkType| !is_casing_of(s, n.name()),
{
    assert forall|a: NetworkType, b: NetworkType|
        (is_casing_of(s, a.name()) <==> fold_case(s) == a.name()) && (a.name() == b.name() <==> a
            == b) by {
        lemma_names(a, b);
        lemma_fold_case_casing(s, a.name());
    }
}

/// Two texts that differ only in the case of their letters are read alike.
pub proof fn lemma_parse_ignores_case(a: Seq<char>, b: Seq<char>)
    requires
        fold_case(a) == fold_case(b),
    ensures
        parse_spec(a) == parse_spec(b),
{
}

} // verus!
