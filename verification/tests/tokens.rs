use smt_log_parser::opcode::classify;
use smt_log_parser::text::same_text;
use smt_log_parser::{LineCase, Operation, TokenStream, VersionInfo, Z3Fingerprint};

fn all_fields(line: &str) -> Vec<String> {
    let mut l = TokenStream::new(line);
    let mut out = Vec::new();
    while let Some(t) = l.next() {
        out.push(t.to_string());
    }
    assert_eq!(l.next(), None);
    out
}

#[test]
fn fields_are_cut_at_every_space() {
    assert_eq!(all_fields("a b c"), vec!["a", "b", "c"]);
    assert_eq!(all_fields("[instance] 0x1f ; 3"), vec!["[instance]", "0x1f", ";", "3"]);
    assert_eq!(all_fields("word"), vec!["word"]);
}

#[test]
fn empty_fields_are_kept() {
    assert_eq!(all_fields(""), vec![""]);
    assert_eq!(all_fields(" "), vec!["", ""]);
    assert_eq!(all_fields("a  b"), vec!["a", "", "b"]);
    assert_eq!(all_fields(" a"), vec!["", "a"]);
    assert_eq!(all_fields("a "), vec!["a", ""]);
    assert_eq!(all_fields("   "), vec!["", "", "", ""]);
}

#[test]
fn only_the_space_cuts() {
    assert_eq!(all_fields("a\tb c\nd"), vec!["a\tb", "c\nd"]);
    assert_eq!(all_fields("\u{a0}x y"), vec!["\u{a0}x", "y"]);
}

#[test]
fn fields_of_texts_beyond_ascii() {
    assert_eq!(all_fields("\u{3b1}\u{3b2} \u{1f600} z\u{e9}"), vec!["\u{3b1}\u{3b2}", "\u{1f600}", "z\u{e9}"]);
}

#[test]
fn fields_agree_with_split() {
    let lines = ["", "x", " x ", "[mk-app] #1  f #2 #3", "a b c d e f g", "  ", "\u{e9} \u{e9}\u{e9}  "];
    for line in lines {
        let expected: Vec<String> = line.split(' ').map(|t| t.to_string()).collect();
        assert_eq!(all_fields(line), expected);
        assert_eq!(all_fields(line).join(" "), line);
    }
}

#[test]
fn stream_hands_out_one_field_at_a_time() {
    let mut l = TokenStream::new("p q");
    assert_eq!(l.next(), Some("p"));
    assert_eq!(l.next(), Some("q"));
    assert_eq!(l.next(), None);
    assert_eq!(l.next(), None);
}

#[test]
fn same_text_compares_characters() {
    assert!(same_text("", ""));
    assert!(same_text("[eof]", "[eof]"));
    assert!(!same_text("[eof]", "[eof"));
    assert!(!same_text("[eof]", "[eoF]"));
    assert!(!same_text("[pop]", "[eof]"));
    assert!(!same_text("", " "));
    assert!(same_text("z\u{e9}\u{1f600}", "z\u{e9}\u{1f600}"));
    assert!(!same_text("z\u{e9}", "z\u{e8}"));
}

#[test]
fn table_of_tags() {
    let table = [
        ("[tool-version]", Operation::VersionInfo),
        ("[mk-quant]", Operation::MkQuant),
        ("[mk-lambda]", Operation::MkQuant),
        ("[mk-var]", Operation::MkVar),
        ("[mk-proof]", Operation::MkProofApp),
        ("[mk-app]", Operation::MkProofApp),
        ("[attach-meaning]", Operation::AttachMeaning),
        ("[attach-var-names]", Operation::AttachVars),
        ("[attach-enode]", Operation::AttachEnode),
        ("[eq-expl]", Operation::EqExpl),
        ("[new-match]", Operation::NewMatch),
        ("[inst-discovered]", Operation::InstDiscovered),
        ("[instance]", Operation::Instance),
        ("[end-of-instance]", Operation::EndOfInstance),
        ("[decide-and-or]", Operation::DecideAndOr),
        ("[decide]", Operation::Decide),
        ("[assign]", Operation::Assign),
        ("[push]", Operation::Push),
        ("[pop]", Operation::Pop),
        ("[begin-check]", Operation::BeginCheck),
        ("[query-done]", Operation::QueryDone),
        ("[resolve-process]", Operation::ResolveProcess),
        ("[resolve-lit]", Operation::ResolveLit),
        ("[conflict]", Operation::Conflict),
    ];
    for (tag, op) in table {
        assert_eq!(classify(tag), LineCase::Call(op));
    }
    assert_eq!(classify("[eof]"), LineCase::Eof);
}

#[test]
fn other_texts_are_unknown() {
    let others = ["", "[", "[]", "eof", "[eof", "eof]", "[EOF]", "[Push]", "[mk-quant] ", " [pop]", "[future-tag]", "[resolve-literal]"];
    for tag in others {
        assert_eq!(classify(tag), LineCase::Unknown);
    }
}

#[test]
fn version_info_starts_empty() {
    let v = VersionInfo::default();
    assert_eq!(v.solver(), "");
    assert_eq!(v.version(), "");
}

#[test]
fn version_info_keeps_what_it_is_given() {
    let v = VersionInfo::new("z3".to_string(), "4.12.1".to_string());
    assert_eq!(v.solver(), "z3");
    assert_eq!(v.version(), "4.12.1");
}

#[test]
fn fingerprint_holds_sixteen_hex_digits() {
    let f: Z3Fingerprint = 0xffff_ffff_ffff_ffff;
    assert_eq!(format!("{:016x}", f), "ffffffffffffffff");
    assert_eq!(Z3Fingerprint::from_str_radix("00000000000000ff", 16), Ok(255));
}
