use jobfuscator::codec::{pack_text, unpack_text};
use jobfuscator::{JObfuscator, JObfuscatorResponse, JObfuscatorResult, ParamName, Reply};
use jobfuscator::ParamName as P;

const STRATEGIES: [&str; 19] = [
    "mix_code_flow",
    "rename_variables",
    "rename_methods",
    "shuffle_methods",
    "ints_math_crypt",
    "crypt_strings",
    "ints_to_arrays",
    "dbls_to_arrays",
    "remove_comments",
    "dbls_math_crypt",
    "string_char_vault",
    "ints_from_double_math",
    "opaque_mixer_chain",
    "complexify_booleans",
    "try_finally_noise",
    "array_int_crypt",
    "array_char_crypt",
    "array_double_crypt",
    "array_string_crypt",
];

fn wire(params: &[(ParamName, String)]) -> Vec<(&'static str, String)> {
    params.iter().map(|(n, v)| (n.as_str(), v.clone())).collect()
}

fn value_of(params: &[(ParamName, String)], name: &str) -> Option<String> {
    params
        .iter()
        .find(|(n, _)| n.as_str() == name)
        .map(|(_, v)| v.clone())
}

fn all_names() -> Vec<ParamName> {
    vec![
        P::Command, P::Source, P::Key, P::MixCodeFlow, P::RenameVariables, P::RenameMethods,
        P::ShuffleMethods, P::IntsMathCrypt, P::CryptStrings, P::IntsToArrays, P::DblsToArrays,
        P::RemoveComments, P::DblsMathCrypt, P::StringCharVault, P::IntsFromDoubleMath,
        P::OpaqueMixerChain, P::ComplexifyBooleans, P::TryFinallyNoise, P::ArrayIntCrypt,
        P::ArrayCharCrypt, P::ArrayDoubleCrypt, P::ArrayStringCrypt, P::Compression,
    ]
}

fn result(error: i64, output: Option<&str>) -> JObfuscatorResult {
    JObfuscatorResult {
        error,
        output: output.map(|s| s.to_string()),
        demo: Some(false),
        credits_left: Some(99),
        credits_total: Some(100),
        expired: Some(false),
        string_limit: None,
    }
}

#[test]
fn error_codes_and_endpoint() {
    assert_eq!(JObfuscator::ERROR_SUCCESS, 0);
    assert_eq!(JObfuscator::ERROR_INPUT_SIZE, 1);
    assert_eq!(JObfuscator::ERROR_INPUT, 2);
    assert_eq!(JObfuscator::ERROR_PARSING, 3);
    assert_eq!(JObfuscator::ERROR_OBFUSCATION, 4);
    assert_eq!(JObfuscator::ERROR_OUTPUT, 5);
    assert_eq!(JObfuscator::API_URL, "https://www.pelock.com/api/jobfuscator/v1");
}

#[test]
fn wire_names_are_distinct() {
    let names: Vec<&str> = all_names().iter().map(|n| n.as_str()).collect();
    for i in 0..names.len() {
        for j in i + 1..names.len() {
            assert_ne!(names[i], names[j]);
        }
    }
    assert_eq!(names.len(), 23);
}

#[test]
fn new_enables_everything() {
    let j = JObfuscator::new(None);
    assert!(j.enable_compression);
    assert!(j.mix_code_flow && j.rename_variables && j.rename_methods && j.shuffle_methods);
    assert!(j.ints_math_crypt && j.crypt_strings && j.ints_to_arrays && j.dbls_to_arrays);
    assert!(j.dbls_math_crypt && j.string_char_vault && j.ints_from_double_math);
    assert!(j.opaque_mixer_chain && j.complexify_booleans && j.try_finally_noise);
    assert!(j.array_int_crypt && j.array_char_crypt && j.array_double_crypt && j.array_string_crypt);
}

#[test]
fn login_request_with_key_and_defaults() {
    let j = JObfuscator::new(Some("ABCD-ABCD-ABCD-ABCD".to_string()));
    let params = j.login_request();
    let mut expected: Vec<(&str, String)> = vec![
        ("command", "login".to_string()),
        ("key", "ABCD-ABCD-ABCD-ABCD".to_string()),
    ];
    for s in STRATEGIES {
        expected.push((s, "1".to_string()));
    }
    assert_eq!(wire(&params), expected);
}

#[test]
fn login_request_without_key() {
    let j = JObfuscator::new(None);
    let params = j.login_request();
    assert_eq!(value_of(&params, "key"), None);
    assert_eq!(params.len(), 1 + STRATEGIES.len());
    assert_eq!(value_of(&params, "source"), None);
    assert_eq!(value_of(&params, "compression"), None);
}

#[test]
fn empty_key_is_not_sent() {
    let j = JObfuscator::new(Some(String::new()));
    assert_eq!(value_of(&j.login_request(), "key"), None);
}

#[test]
fn disabled_strategies_are_not_sent() {
    let j = JObfuscator::new(None)
        .with_strategy(ParamName::MixCodeFlow, false)
        .with_strategy(ParamName::CryptStrings, false)
        .with_strategy(ParamName::ArrayStringCrypt, false);
    let params = j.login_request();
    assert_eq!(value_of(&params, "mix_code_flow"), None);
    assert_eq!(value_of(&params, "crypt_strings"), None);
    assert_eq!(value_of(&params, "array_string_crypt"), None);
    assert_eq!(value_of(&params, "rename_variables").as_deref(), Some("1"));
    assert_eq!(value_of(&params, "remove_comments").as_deref(), Some("1"));
    assert_eq!(params.len(), 1 + STRATEGIES.len() - 3);
}

#[test]
fn obfuscate_request_compressed() {
    let j = JObfuscator::new(Some("KEY".to_string()));
    let source = "class A { void f() {} }";
    let params = j.obfuscate_request(source);
    assert_eq!(value_of(&params, "command").as_deref(), Some("obfuscate"));
    let sent = value_of(&params, "source").unwrap();
    assert_eq!(sent, pack_text(source));
    assert_eq!(unpack_text(&sent).as_deref(), Some(source));
    assert_eq!(value_of(&params, "compression").as_deref(), Some("1"));
    assert_eq!(value_of(&params, "key").as_deref(), Some("KEY"));
    assert_eq!(params.len(), 2 + 1 + STRATEGIES.len() + 1);
}

#[test]
fn obfuscate_request_uncompressed() {
    let mut j = JObfuscator::new(None);
    j.enable_compression = false;
    let source = "class A { void f() {} }";
    let params = j.obfuscate_request(source);
    assert_eq!(value_of(&params, "source").as_deref(), Some(source));
    assert_eq!(value_of(&params, "compression"), None);
}

#[test]
fn obfuscate_request_empty_source_is_still_sent() {
    let mut j = JObfuscator::new(None);
    j.enable_compression = false;
    let params = j.obfuscate_request("");
    assert_eq!(value_of(&params, "source").as_deref(), Some(""));
}

#[test]
fn obfuscate_file_request_empty_file() {
    let j = JObfuscator::new(None);
    assert!(j.obfuscate_file_request("").is_none());
    let params = j.obfuscate_file_request("class B {}").unwrap();
    assert_eq!(wire(&params), wire(&j.obfuscate_request("class B {}")));
}

#[test]
fn handle_response_empty_body() {
    let j = JObfuscator::new(None);
    assert!(matches!(j.handle_response(String::new(), Some(result(0, None)), true), Reply::Nothing));
}

#[test]
fn handle_response_unparsed_body() {
    let j = JObfuscator::new(None);
    assert!(matches!(j.handle_response("<html>".to_string(), None, false), Reply::Nothing));
}

#[test]
fn handle_response_unpacks_output_as_object() {
    let j = JObfuscator::new(None);
    let obfuscated = "class X { int a; }";
    let packed = pack_text(obfuscated);
    let body = format!("{{\"error\":0,\"output\":\"{}\"}}", packed);
    match j.handle_response(body, Some(result(0, Some(&packed))), true) {
        Reply::Deliver(JObfuscatorResponse::Object(r)) => {
            assert_eq!(r.error, 0);
            assert_eq!(r.output.as_deref(), Some(obfuscated));
            assert_eq!(r.credits_left, Some(99));
            assert_eq!(r.credits_total, Some(100));
            assert_eq!(r.demo, Some(false));
        }
        other => panic!("unexpected {:?}", other),
    }
}

#[test]
fn handle_response_unpacked_output_is_encoded_again() {
    let j = JObfuscator::new(None);
    let obfuscated = "class X { int a; }";
    let packed = pack_text(obfuscated);
    match j.handle_response("{}".to_string(), Some(result(0, Some(&packed))), false) {
        Reply::Encode(r) => assert_eq!(r.output.as_deref(), Some(obfuscated)),
        other => panic!("unexpected {:?}", other),
    }
}

#[test]
fn handle_response_bad_packed_output() {
    let j = JObfuscator::new(None);
    assert!(matches!(
        j.handle_response("{}".to_string(), Some(result(0, Some("%%%"))), true),
        Reply::Nothing
    ));
}

#[test]
fn handle_response_error_reply_untouched() {
    let j = JObfuscator::new(None);
    let body = "{\"error\":3,\"output\":\"%%%\"}".to_string();
    match j.handle_response(body.clone(), Some(result(3, Some("%%%"))), false) {
        Reply::Deliver(JObfuscatorResponse::Json(text)) => assert_eq!(text, body),
        other => panic!("unexpected {:?}", other),
    }
    match j.handle_response(body, Some(result(3, Some("%%%"))), true) {
        Reply::Deliver(JObfuscatorResponse::Object(r)) => {
            assert_eq!(r.error, JObfuscator::ERROR_PARSING);
            assert_eq!(r.output.as_deref(), Some("%%%"));
        }
        other => panic!("unexpected {:?}", other),
    }
}

#[test]
fn handle_response_without_compression_keeps_output() {
    let mut j = JObfuscator::new(None);
    j.enable_compression = false;
    let body = "{\"error\":0,\"output\":\"class Y {}\"}".to_string();
    match j.handle_response(body.clone(), Some(result(0, Some("class Y {}"))), true) {
        Reply::Deliver(JObfuscatorResponse::Object(r)) => assert_eq!(r.output.as_deref(), Some("class Y {}")),
        other => panic!("unexpected {:?}", other),
    }
    match j.handle_response(body.clone(), Some(result(0, Some("class Y {}"))), false) {
        Reply::Deliver(JObfuscatorResponse::Json(text)) => assert_eq!(text, body),
        other => panic!("unexpected {:?}", other),
    }
}

#[test]
fn handle_response_login_reply_without_output() {
    let j = JObfuscator::new(None);
    let body = "{\"error\":0,\"demo\":true}".to_string();
    let mut login = result(0, None);
    login.demo = Some(true);
    login.string_limit = Some(1500);
    match j.handle_response(body.clone(), Some(login.clone()), false) {
        Reply::Deliver(JObfuscatorResponse::Json(text)) => assert_eq!(text, body),
        other => panic!("unexpected {:?}", other),
    }
    match j.handle_response(body, Some(login), true) {
        Reply::Deliver(JObfuscatorResponse::Object(r)) => {
            assert_eq!(r.demo, Some(true));
            assert_eq!(r.string_limit, Some(1500));
            assert_eq!(r.output, None);
        }
        other => panic!("unexpected {:?}", other),
    }
}

#[test]
fn handle_response_empty_output_not_unpacked() {
    let j = JObfuscator::new(None);
    match j.handle_response("{}".to_string(), Some(result(0, Some(""))), true) {
        Reply::Deliver(JObfuscatorResponse::Object(r)) => assert_eq!(r.output.as_deref(), Some("")),
        other => panic!("unexpected {:?}", other),
    }
}

#[test]
fn disabled_strategies_through_fields() {
    let mut j = JObfuscator::new(None);
    j.rename_methods = false;
    let params = j.login_request();
    assert_eq!(value_of(&params, "rename_methods"), None);
    assert!(!j.strategy_enabled(ParamName::RenameMethods));
}

#[test]
fn with_strategy_sets_only_that_strategy() {
    let j = JObfuscator::new(None).with_strategy(ParamName::ShuffleMethods, false);
    assert!(!j.strategy_enabled(ParamName::ShuffleMethods));
    assert!(!j.shuffle_methods);
    assert!(j.strategy_enabled(ParamName::RenameMethods));
    assert!(j.strategy_enabled(ParamName::RemoveComments));
    assert!(j.compression_enabled());
    let j = j.with_strategy(ParamName::ShuffleMethods, true);
    assert!(j.strategy_enabled(ParamName::ShuffleMethods));
}

#[test]
fn with_strategy_leaves_comment_stripping_and_non_strategies() {
    let j = JObfuscator::new(None)
        .with_strategy(ParamName::RemoveComments, false)
        .with_strategy(ParamName::Key, false)
        .with_strategy(ParamName::Compression, false);
    assert!(j.strategy_enabled(ParamName::RemoveComments));
    assert!(j.compression_enabled());
    assert!(!j.strategy_enabled(ParamName::Key));
    assert_eq!(j.login_request().len(), 1 + STRATEGIES.len());
}

#[test]
fn with_compression_switches_compression() {
    let j = JObfuscator::new(None).with_compression(false);
    assert!(!j.compression_enabled());
    assert!(!j.enable_compression);
    let params = j.obfuscate_request("class C {}");
    assert_eq!(value_of(&params, "source").as_deref(), Some("class C {}"));
    assert_eq!(value_of(&params, "compression"), None);
    assert!(j.with_compression(true).compression_enabled());
}

#[test]
fn empty_source_is_posted_by_default_client() {
    let j = JObfuscator::new(None);
    let params = j.obfuscate_request("");
    assert_eq!(value_of(&params, "command").as_deref(), Some("obfuscate"));
    assert_eq!(value_of(&params, "compression").as_deref(), Some("1"));
    let sent = value_of(&params, "source").unwrap();
    assert!(!sent.is_empty());
    assert_eq!(unpack_text(&sent).as_deref(), Some(""));
    let body = "{\"error\":2}".to_string();
    let mut reply = result(JObfuscator::ERROR_INPUT, None);
    reply.demo = None;
    reply.credits_left = None;
    reply.credits_total = None;
    reply.expired = None;
    match j.handle_response(body, Some(reply), true) {
        Reply::Deliver(JObfuscatorResponse::Object(r)) => {
            assert_eq!(r.error, 2);
            assert_eq!(r.output, None);
            assert_eq!(r.demo, None);
        }
        other => panic!("unexpected {:?}", other),
    }
}
