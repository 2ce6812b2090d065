use bau_client::method::{decode, encode, from_token, Method};

const DEFINED: [Method; 6] = [
    Method::Status,
    Method::Enable,
    Method::Disable,
    Method::Stack,
    Method::Reject,
    Method::Reset,
];

#[test]
fn encode_gives_the_wire_names() {
    assert_eq!(encode(Method::Status), "status");
    assert_eq!(encode(Method::Enable), "enable");
    assert_eq!(encode(Method::Disable), "disable");
    assert_eq!(encode(Method::Stack), "stack");
    assert_eq!(encode(Method::Reject), "reject");
    assert_eq!(encode(Method::Reset), "reset");
    assert_eq!(encode(Method::Unknown), "reserved");
}

#[test]
fn decode_undoes_encode() {
    for m in DEFINED {
        assert_eq!(decode(encode(m)), m);
    }
    assert_eq!(decode(encode(Method::Unknown)), Method::Unknown);
}

#[test]
fn decode_knows_only_the_wire_names() {
    assert_eq!(decode("status"), Method::Status);
    assert_eq!(decode("reset"), Method::Reset);
    assert_eq!(decode("stat"), Method::Unknown);
    assert_eq!(decode("Status"), Method::Unknown);
    assert_eq!(decode("status "), Method::Unknown);
    assert_eq!(decode(""), Method::Unknown);
    assert_eq!(decode("accept"), Method::Unknown);
    assert_eq!(decode("stop"), Method::Unknown);
    assert_eq!(decode("shutdown"), Method::Unknown);
    assert_eq!(decode("dispense"), Method::Unknown);
    assert_eq!(decode("bogus"), Method::Unknown);
}

#[test]
fn from_token_knows_every_alias() {
    assert_eq!(from_token("status"), Some(Method::Status));
    assert_eq!(from_token("stat"), Some(Method::Status));
    assert_eq!(from_token("enable"), Some(Method::Enable));
    assert_eq!(from_token("e"), Some(Method::Enable));
    assert_eq!(from_token("disable"), Some(Method::Disable));
    assert_eq!(from_token("d"), Some(Method::Disable));
    assert_eq!(from_token("stack"), Some(Method::Stack));
    assert_eq!(from_token("t"), Some(Method::Stack));
    assert_eq!(from_token("reject"), Some(Method::Reject));
    assert_eq!(from_token("r"), Some(Method::Reject));
    assert_eq!(from_token("reset"), Some(Method::Reset));
}

#[test]
fn from_token_refuses_everything_else() {
    for token in [
        "", " ", "bogus", "Status", "STATUS", "status ", " status", "s", "st", "statu",
        "statuss", "quit", "exit", "q", "x", "help", "h", "?", "check", "res", "reserved",
        "re", "rese", "resets", "en", "dis", "stac", "rejec", "é", "statüs",
    ] {
        assert_eq!(from_token(token), None, "token {token:?}");
    }
}

#[test]
fn every_wire_name_is_a_token_for_its_method() {
    for m in DEFINED {
        assert_eq!(from_token(encode(m)), Some(m));
    }
    assert_eq!(from_token(encode(Method::Unknown)), None);
}

#[test]
fn the_wire_names_are_those_of_the_server_library() {
    let mut every = DEFINED.to_vec();
    every.push(Method::Unknown);
    for m in every {
        assert_eq!(ssp::Method::from(encode(m)).to_str(), encode(m));
    }
    assert_eq!(ssp::Method::Status.to_str(), encode(Method::Status));
    assert_eq!(ssp::Method::Enable.to_str(), encode(Method::Enable));
    assert_eq!(ssp::Method::Disable.to_str(), encode(Method::Disable));
    assert_eq!(ssp::Method::Stack.to_str(), encode(Method::Stack));
    assert_eq!(ssp::Method::Reject.to_str(), encode(Method::Reject));
    assert_eq!(ssp::Method::Reset.to_str(), encode(Method::Reset));
    assert_eq!(ssp::Method::new().to_str(), encode(Method::Unknown));
}
