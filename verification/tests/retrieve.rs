use cpython::{ObjectProtocol, PyDict, Python};
use engine_aware::{
    Artifacts, DebugHint, Digest, EngineAwareInformation, EngineAwareLevel, Extraction, Fault,
    Fingerprint, FingerprintError, Level, Message, ResolveError, Types, Value,
};

const PRELUDE: &str = "
class Digest:
    def __init__(self, fingerprint, serialized_bytes_length):
        self.fingerprint = fingerprint
        self.serialized_bytes_length = serialized_bytes_length

class Snapshot:
    def __init__(self, digest):
        self.digest = digest

class LogLevel:
    def __init__(self, level):
        self._level = level

class Raises(Exception):
    pass

D1 = Digest('11' * 32, 10)
D2 = Digest('22' * 32, 20)
";

fn scope_with(body: &str) -> PyDict {
    let gil = Python::acquire_gil();
    let py = gil.python();
    let scope = PyDict::new(py);
    py.run(PRELUDE, Some(&scope), None).unwrap();
    py.run(body, Some(&scope), None).unwrap();
    scope
}

fn named(scope: &PyDict, name: &str) -> Value {
    let gil = Python::acquire_gil();
    Value::new(scope.get_item(gil.python(), name).unwrap())
}

fn build(body: &str) -> (Types, Value) {
    let scope = scope_with(body);
    (Types { directory_digest: named(&scope, "Digest") }, named(&scope, "subject"))
}

fn with_artifacts(expression: &str) -> (Types, Value) {
    build(&format!(
        "class Aware:\n    def artifacts(self):\n        return {}\nsubject = Aware()\n",
        expression
    ))
}

fn with_level(expression: &str) -> (Types, Value) {
    build(&format!(
        "class Aware:\n    def level(self):\n        return {}\nsubject = Aware()\n",
        expression
    ))
}

fn with_message(expression: &str) -> (Types, Value) {
    build(&format!(
        "class Aware:\n    def message(self):\n        return {}\nsubject = Aware()\n",
        expression
    ))
}

fn d1() -> Digest {
    Digest(Fingerprint([0x11; 32]), 10)
}

fn d2() -> Digest {
    Digest(Fingerprint([0x22; 32]), 20)
}

#[test]
fn object_without_methods_offers_nothing() {
    let (types, value) = build("class Bare:\n    pass\nsubject = Bare()\n");
    assert_eq!(EngineAwareLevel::retrieve(&types, &value), None);
    assert_eq!(Message::retrieve(&types, &value), None);
    assert_eq!(DebugHint::retrieve(&types, &value), None);
    assert_eq!(Artifacts::retrieve(&types, &value), None);
    assert_eq!(Artifacts::examine(&types, &value), Extraction::Nothing);
}

#[test]
fn plain_values_offer_nothing() {
    for expression in ["subject = 5\n", "subject = None\n", "subject = 'text'\n", "subject = {}\n"] {
        let (types, value) = build(expression);
        assert_eq!(EngineAwareLevel::retrieve(&types, &value), None);
        assert_eq!(Message::retrieve(&types, &value), None);
        assert_eq!(DebugHint::retrieve(&types, &value), None);
        assert_eq!(Artifacts::retrieve(&types, &value), None);
    }
}

#[test]
fn methods_that_answer_none_offer_nothing() {
    let (types, value) = build(
        "
class Quiet:
    def level(self):
        return None
    def message(self):
        return None
    def debug_hint(self):
        return None
    def artifacts(self):
        return None
subject = Quiet()
",
    );
    assert_eq!(EngineAwareLevel::retrieve(&types, &value), None);
    assert_eq!(Message::retrieve(&types, &value), None);
    assert_eq!(DebugHint::retrieve(&types, &value), None);
    assert_eq!(Artifacts::retrieve(&types, &value), None);
    assert_eq!(Artifacts::examine(&types, &value), Extraction::Nothing);
}

#[test]
fn methods_that_raise_offer_nothing() {
    let (types, value) = build(
        "
class Broken:
    def level(self):
        raise Raises('level')
    def message(self):
        raise Raises('message')
    def debug_hint(self):
        raise Raises('debug_hint')
    def artifacts(self):
        raise Raises('artifacts')
subject = Broken()
",
    );
    assert_eq!(EngineAwareLevel::retrieve(&types, &value), None);
    assert_eq!(Message::retrieve(&types, &value), None);
    assert_eq!(DebugHint::retrieve(&types, &value), None);
    assert_eq!(Artifacts::retrieve(&types, &value), None);
    match Artifacts::examine(&types, &value) {
        Extraction::Malformed(Fault::Invocation { detail }) => {
            assert!(detail.contains("Raises"), "detail {:?}", detail)
        }
        other => panic!("unexpected outcome {:?}", other),
    }
}

#[test]
fn attributes_that_cannot_be_called_offer_nothing() {
    let (types, value) = build(
        "
class Flat:
    level = 20
    message = 'x'
    debug_hint = 'y'
    artifacts = {}
subject = Flat()
",
    );
    assert_eq!(EngineAwareLevel::retrieve(&types, &value), None);
    assert_eq!(Message::retrieve(&types, &value), None);
    assert_eq!(DebugHint::retrieve(&types, &value), None);
    assert_eq!(Artifacts::retrieve(&types, &value), None);
}

#[test]
fn message_is_returned_verbatim() {
    let (types, value) = with_message("'x'");
    assert_eq!(Message::retrieve(&types, &value), Some("x".to_string()));
}

#[test]
fn message_keeps_every_character() {
    let (types, value) = with_message("'  l\\u00ednea\\n\\ttab \\U0001F600 \\x00 end '");
    assert_eq!(
        Message::retrieve(&types, &value),
        Some("  línea\n\ttab \u{1F600} \0 end ".to_string())
    );
    let (types, value) = with_message("''");
    assert_eq!(Message::retrieve(&types, &value), Some(String::new()));
}

#[test]
fn debug_hint_is_returned_verbatim() {
    let (types, value) = build(
        "class Aware:\n    def debug_hint(self):\n        return 'x'\nsubject = Aware()\n",
    );
    assert_eq!(DebugHint::retrieve(&types, &value), Some("x".to_string()));
    assert_eq!(Message::retrieve(&types, &value), None);
}

#[test]
fn message_and_debug_hint_are_kept_apart() {
    let (types, value) = build(
        "
class Aware:
    def message(self):
        return 'the message'
    def debug_hint(self):
        return 'the hint'
subject = Aware()
",
    );
    assert_eq!(Message::retrieve(&types, &value), Some("the message".to_string()));
    assert_eq!(DebugHint::retrieve(&types, &value), Some("the hint".to_string()));
}

#[test]
fn message_that_is_no_string_is_read_through_str() {
    let (types, value) = with_message("42");
    assert_eq!(Message::retrieve(&types, &value), Some("42".to_string()));
}

#[test]
fn message_that_cannot_be_read_offers_nothing() {
    let (types, value) = build(
        "
class Mute:
    def __str__(self):
        raise Raises('str')
class Aware:
    def message(self):
        return Mute()
subject = Aware()
",
    );
    assert_eq!(Message::retrieve(&types, &value), None);
}

#[test]
fn message_that_is_not_valid_unicode_offers_nothing() {
    let (types, value) = with_message("'a\\udc80b'");
    assert_eq!(Message::retrieve(&types, &value), None);
}

#[test]
fn level_is_decoded_from_its_code() {
    let cases = [
        (5, Level::Trace),
        (10, Level::Debug),
        (20, Level::Info),
        (30, Level::Warn),
        (40, Level::Error),
        (50, Level::Error),
    ];
    for (code, level) in cases {
        let (types, value) = with_level(&format!("LogLevel({})", code));
        assert_eq!(EngineAwareLevel::retrieve(&types, &value), Some(level), "code {}", code);
    }
}

#[test]
fn level_with_unrecognised_code_offers_nothing() {
    for code in ["0", "1", "25", "41", "60", "2 ** 63", "2 ** 64 - 1"] {
        let (types, value) = with_level(&format!("LogLevel({})", code));
        assert_eq!(EngineAwareLevel::retrieve(&types, &value), None, "code {}", code);
    }
}

#[test]
fn level_without_readable_code_offers_nothing() {
    for answer in ["20", "'info'", "LogLevel(-20)", "LogLevel('20')", "LogLevel(2 ** 64)", "LogLevel(None)"]
    {
        let (types, value) = with_level(answer);
        assert_eq!(EngineAwareLevel::retrieve(&types, &value), None, "answer {}", answer);
    }
}

#[test]
fn artifacts_keep_the_order_of_the_mapping() {
    let (types, value) = with_artifacts("{'a': Snapshot(D1), 'b': Snapshot(D2)}");
    assert_eq!(
        Artifacts::retrieve(&types, &value),
        Some(vec![("a".to_string(), d1()), ("b".to_string(), d2())])
    );
    let (types, value) = with_artifacts("{'b': Snapshot(D2), 'a': Snapshot(D1)}");
    assert_eq!(
        Artifacts::retrieve(&types, &value),
        Some(vec![("b".to_string(), d2()), ("a".to_string(), d1())])
    );
}

#[test]
fn artifacts_read_fingerprint_and_length() {
    let (types, value) = with_artifacts(
        "{'out': Snapshot(Digest('e3b0c44298fc1c149afbf4c8996fb92427ae41e4649b934ca495991b7852b855', 0))}",
    );
    let expected = Digest(
        Fingerprint([
            0xe3, 0xb0, 0xc4, 0x42, 0x98, 0xfc, 0x1c, 0x14, 0x9a, 0xfb, 0xf4, 0xc8, 0x99, 0x6f,
            0xb9, 0x24, 0x27, 0xae, 0x41, 0xe4, 0x64, 0x9b, 0x93, 0x4c, 0xa4, 0x95, 0x99, 0x1b,
            0x78, 0x52, 0xb8, 0x55,
        ]),
        0,
    );
    assert_eq!(Artifacts::retrieve(&types, &value), Some(vec![("out".to_string(), expected)]));
}

#[test]
fn empty_mapping_gives_no_artifacts_but_some() {
    let (types, value) = with_artifacts("{}");
    assert_eq!(Artifacts::retrieve(&types, &value), Some(Vec::new()));
    assert_eq!(Artifacts::examine(&types, &value), Extraction::Found(Vec::new()));
}

#[test]
fn many_artifacts_keep_their_order() {
    let (types, value) =
        with_artifacts("{'k%03d' % (99 - i): Snapshot(Digest('%064x' % i, i)) for i in range(100)}");
    let found = Artifacts::retrieve(&types, &value).unwrap();
    assert_eq!(found.len(), 100);
    for (i, (name, digest)) in found.iter().enumerate() {
        assert_eq!(name, &format!("k{:03}", 99 - i));
        let mut bytes = [0u8; 32];
        bytes[31] = i as u8;
        assert_eq!(*digest, Digest(Fingerprint(bytes), i));
    }
}

#[test]
fn one_value_without_digest_discards_all() {
    let (types, value) = with_artifacts("{'a': Snapshot(D1), 'b': object(), 'c': Snapshot(D2)}");
    assert_eq!(Artifacts::retrieve(&types, &value), None);
    match Artifacts::examine(&types, &value) {
        Extraction::Malformed(Fault::DigestMissing { position, name, detail }) => {
            assert_eq!(position, 1);
            assert_eq!(name, "b");
            assert!(detail.contains("AttributeError"), "detail {:?}", detail);
        }
        other => panic!("unexpected outcome {:?}", other),
    }
}

#[test]
fn one_value_without_digest_discards_all_wherever_it_is() {
    for mapping in [
        "{'bad': 1, 'a': Snapshot(D1), 'b': Snapshot(D2)}",
        "{'a': Snapshot(D1), 'bad': 1, 'b': Snapshot(D2)}",
        "{'a': Snapshot(D1), 'b': Snapshot(D2), 'bad': 1}",
        "{'bad': 1}",
    ] {
        let (types, value) = with_artifacts(mapping);
        assert_eq!(Artifacts::retrieve(&types, &value), None, "mapping {}", mapping);
    }
}

#[test]
fn key_that_is_no_string_discards_all() {
    for (mapping, place) in [
        ("{1: Snapshot(D1), 'a': Snapshot(D1), 'b': Snapshot(D2)}", 0),
        ("{'a': Snapshot(D1), (): Snapshot(D1), 'b': Snapshot(D2)}", 1),
        ("{'a': Snapshot(D1), 'b': Snapshot(D2), None: Snapshot(D1)}", 2),
        ("{'a': Snapshot(D1), 'b': Snapshot(D2), b'c': Snapshot(D1)}", 2),
    ] {
        let (types, value) = with_artifacts(mapping);
        assert_eq!(Artifacts::retrieve(&types, &value), None, "mapping {}", mapping);
        assert_eq!(
            Artifacts::examine(&types, &value),
            Extraction::Malformed(Fault::KeyNotText { position: place }),
            "mapping {}",
            mapping
        );
    }
}

#[test]
fn answer_that_is_no_mapping_discards_all() {
    for answer in ["[('a', Snapshot(D1))]", "'a'", "5", "Snapshot(D1)", "(('a', Snapshot(D1)),)"] {
        let (types, value) = with_artifacts(answer);
        assert_eq!(Artifacts::retrieve(&types, &value), None, "answer {}", answer);
        assert_eq!(
            Artifacts::examine(&types, &value),
            Extraction::Malformed(Fault::NotAMapping),
            "answer {}",
            answer
        );
    }
}

fn unresolved(digest: &str) -> ResolveError {
    let (types, value) = with_artifacts(&format!("{{'a': Snapshot(D1), 'b': Snapshot({})}}", digest));
    assert_eq!(Artifacts::retrieve(&types, &value), None, "digest {}", digest);
    match Artifacts::examine(&types, &value) {
        Extraction::Malformed(Fault::DigestUnresolved { position: 1, name, error }) => {
            assert_eq!(name, "b");
            error
        }
        other => panic!("unexpected outcome {:?}", other),
    }
}

#[test]
fn digest_of_another_type_does_not_resolve() {
    assert_eq!(unresolved("'11' * 32"), ResolveError::WrongType);
    assert_eq!(unresolved("None"), ResolveError::WrongType);
    assert_eq!(unresolved("Snapshot(D1)"), ResolveError::WrongType);
    assert_eq!(unresolved("type('Digest', (Digest,), {})('11' * 32, 10)"), ResolveError::WrongType);
}

#[test]
fn digest_without_fingerprint_does_not_resolve() {
    assert_eq!(unresolved("Digest(None, 10)"), ResolveError::NoFingerprint);
    assert_eq!(unresolved("Digest(b'11', 10)"), ResolveError::NoFingerprint);
    assert_eq!(unresolved("Digest.__new__(Digest)"), ResolveError::NoFingerprint);
}

#[test]
fn digest_without_length_does_not_resolve() {
    assert_eq!(unresolved("Digest('11' * 32, None)"), ResolveError::NoLength);
    assert_eq!(unresolved("Digest('11' * 32, -1)"), ResolveError::NoLength);
    assert_eq!(unresolved("Digest('11' * 32, 2 ** 64)"), ResolveError::NoLength);
    assert_eq!(unresolved("Digest('11' * 32, 'ten')"), ResolveError::NoLength);
}

#[test]
fn digest_with_bad_fingerprint_does_not_resolve() {
    assert_eq!(
        unresolved("Digest('11' * 31, 10)"),
        ResolveError::Fingerprint(FingerprintError::Length { found: 62 })
    );
    assert_eq!(
        unresolved("Digest('', 10)"),
        ResolveError::Fingerprint(FingerprintError::Length { found: 0 })
    );
    assert_eq!(
        unresolved("Digest('11' * 16 + 'xy' + '11' * 15, 10)"),
        ResolveError::Fingerprint(FingerprintError::Digit { position: 32 })
    );
    assert_eq!(
        unresolved("Digest('1' * 63 + '\\udc80', 10)"),
        ResolveError::Fingerprint(FingerprintError::Digit { position: 63 })
    );
}

#[test]
fn key_that_is_not_valid_unicode_is_read_with_a_replacement() {
    let (types, value) = with_artifacts("{'a\\udc80b': Snapshot(D1)}");
    assert_eq!(Artifacts::retrieve(&types, &value), Some(vec![("a\u{FFFD}b".to_string(), d1())]));
}

#[test]
fn reading_stops_at_the_first_entry_that_fails() {
    let scope = scope_with(
        "
seen = []
class Watched:
    def __init__(self, name, digest):
        self.name = name
        self._digest = digest
    @property
    def digest(self):
        seen.append(self.name)
        if self._digest is None:
            raise AttributeError('digest')
        return self._digest
class Aware:
    def artifacts(self):
        return {'a': Watched('a', D1), 'b': Watched('b', None), 'c': Watched('c', D2)}
subject = Aware()
",
    );
    let types = Types { directory_digest: named(&scope, "Digest") };
    let value = named(&scope, "subject");
    assert_eq!(Artifacts::retrieve(&types, &value), None);
    let gil = Python::acquire_gil();
    let py = gil.python();
    let seen: Vec<String> = scope.get_item(py, "seen").unwrap().extract(py).unwrap();
    assert_eq!(seen, vec!["a".to_string(), "b".to_string()]);
}

#[test]
fn each_method_is_called_once() {
    let scope = scope_with(
        "
calls = []
class Counted:
    def level(self):
        calls.append('level')
        return LogLevel(30)
    def message(self):
        calls.append('message')
        return 'm'
    def debug_hint(self):
        calls.append('debug_hint')
        return 'h'
    def artifacts(self):
        calls.append('artifacts')
        return {'a': Snapshot(D1)}
subject = Counted()
",
    );
    let types = Types { directory_digest: named(&scope, "Digest") };
    let value = named(&scope, "subject");
    assert_eq!(EngineAwareLevel::retrieve(&types, &value), Some(Level::Warn));
    assert_eq!(Message::retrieve(&types, &value), Some("m".to_string()));
    assert_eq!(DebugHint::retrieve(&types, &value), Some("h".to_string()));
    assert_eq!(Artifacts::retrieve(&types, &value), Some(vec![("a".to_string(), d1())]));
    let gil = Python::acquire_gil();
    let py = gil.python();
    let calls: Vec<String> = scope.get_item(py, "calls").unwrap().extract(py).unwrap();
    assert_eq!(calls, vec!["level", "message", "debug_hint", "artifacts"]);
}

#[test]
fn retrieving_again_gives_the_same() {
    let (types, value) = build(
        "
class Aware:
    def level(self):
        return LogLevel(10)
    def message(self):
        return 'again'
    def artifacts(self):
        return {'a': Snapshot(D1), 'b': Snapshot(D2)}
subject = Aware()
",
    );
    for _ in 0..50 {
        assert_eq!(EngineAwareLevel::retrieve(&types, &value), Some(Level::Debug));
        assert_eq!(Message::retrieve(&types, &value), Some("again".to_string()));
        assert_eq!(DebugHint::retrieve(&types, &value), None);
        assert_eq!(
            Artifacts::retrieve(&types, &value),
            Some(vec![("a".to_string(), d1()), ("b".to_string(), d2())])
        );
    }
}

#[test]
fn one_broken_kind_leaves_the_others() {
    let (types, value) = build(
        "
class Aware:
    def level(self):
        return LogLevel(40)
    def message(self):
        return 'fine'
    def debug_hint(self):
        raise Raises('hint')
    def artifacts(self):
        return {1: Snapshot(D1)}
subject = Aware()
",
    );
    assert_eq!(EngineAwareLevel::retrieve(&types, &value), Some(Level::Error));
    assert_eq!(Message::retrieve(&types, &value), Some("fine".to_string()));
    assert_eq!(DebugHint::retrieve(&types, &value), None);
    assert_eq!(Artifacts::retrieve(&types, &value), None);
}
