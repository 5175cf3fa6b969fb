use bridge_network::network::NetworkType;
use bridge_network::text::ParseError;
use std::str::FromStr;

#[test]
fn to_string_gives_the_canonical_names() {
    assert_eq!(NetworkType::Mainnet.to_string(), "mainnet");
    assert_eq!(NetworkType::Testnet.to_string(), "testnet");
    assert_eq!(NetworkType::Simnet.to_string(), "simnet");
    assert_eq!(NetworkType::Devnet.to_string(), "devnet");
}

#[test]
fn parse_reads_the_canonical_names() {
    assert_eq!(NetworkType::from_str("mainnet"), Ok(NetworkType::Mainnet));
    assert_eq!(NetworkType::from_str("testnet"), Ok(NetworkType::Testnet));
    assert_eq!(NetworkType::from_str("simnet"), Ok(NetworkType::Simnet));
    assert_eq!(NetworkType::from_str("devnet"), Ok(NetworkType::Devnet));
}

#[test]
fn parse_of_format_is_identity() {
    for network in NetworkType::iter() {
        assert_eq!(NetworkType::from_str(&network.to_string()), Ok(network));
    }
}

#[test]
fn parse_ignores_case() {
    assert_eq!(NetworkType::from_str("MAINNET"), Ok(NetworkType::Mainnet));
    assert_eq!(NetworkType::from_str("MAINNET"), NetworkType::from_str("mainnet"));
    assert_eq!(NetworkType::from_str("MainNet"), Ok(NetworkType::Mainnet));
    assert_eq!(NetworkType::from_str("TESTNET"), Ok(NetworkType::Testnet));
    assert_eq!(NetworkType::from_str("tEsTnEt"), Ok(NetworkType::Testnet));
    assert_eq!(NetworkType::from_str("SIMNET"), Ok(NetworkType::Simnet));
    assert_eq!(NetworkType::from_str("Simnet"), Ok(NetworkType::Simnet));
    assert_eq!(NetworkType::from_str("DEVNET"), Ok(NetworkType::Devnet));
    assert_eq!(NetworkType::from_str("devNET"), Ok(NetworkType::Devnet));
}

#[test]
fn parse_through_str_parse() {
    let parsed: Result<NetworkType, ParseError> = "Testnet".parse();
    assert_eq!(parsed, Ok(NetworkType::Testnet));
    let refused: Result<NetworkType, ParseError> = "regtest".parse();
    assert_eq!(refused, Err(ParseError { input: String::from("regtest") }));
}

#[test]
fn parse_rejects_a_name_with_a_suffix() {
    assert_eq!(
        NetworkType::from_str("mainnet2"),
        Err(ParseError { input: String::from("mainnet2") })
    );
}

#[test]
fn parse_rejects_the_empty_text() {
    assert_eq!(NetworkType::from_str(""), Err(ParseError { input: String::new() }));
}

#[test]
fn parse_rejects_leading_whitespace() {
    assert_eq!(
        NetworkType::from_str(" mainnet"),
        Err(ParseError { input: String::from(" mainnet") })
    );
}

#[test]
fn parse_rejects_trailing_whitespace_and_prefixes() {
    for text in ["mainnet ", "devnet\n", "main", "net", "simne", "testnett", "dev net"] {
        assert_eq!(NetworkType::from_str(text), Err(ParseError { input: String::from(text) }));
    }
}

#[test]
fn parse_keeps_the_case_of_a_rejected_text() {
    let refused = NetworkType::from_str("MainNet!");
    assert_eq!(refused, Err(ParseError { input: String::from("MainNet!") }));
}

#[test]
fn parse_rejects_letters_outside_ascii() {
    // A dotted capital I, a long s and a full-width m are no casings of i, s and m.
    for text in ["ma\u{130}nnet", "\u{17f}imnet", "\u{ff4d}ainnet", "te\u{15f}tnet", "d\u{e9}vnet"] {
        assert_eq!(NetworkType::from_str(text), Err(ParseError { input: String::from(text) }));
    }
}

#[test]
fn parse_agrees_with_lowercasing_first() {
    let texts = [
        "mainnet", "MAINNET", "Testnet", "SimNet", "dEVNET", "", " devnet", "mainnet2",
        "ma\u{130}nnet", "\u{212a}", "TESTNET\u{0}", "simnet\u{301}",
    ];
    for text in texts {
        let lowered = text.to_lowercase();
        let expected = match lowered.as_str() {
            "mainnet" => Some(NetworkType::Mainnet),
            "testnet" => Some(NetworkType::Testnet),
            "simnet" => Some(NetworkType::Simnet),
            "devnet" => Some(NetworkType::Devnet),
            _ => None,
        };
        assert_eq!(NetworkType::from_str(text).ok(), expected);
    }
}
