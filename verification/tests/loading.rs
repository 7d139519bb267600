use function_executor::error::ErrorKind;
use function_executor::loader::{
    plan_with, reconcile, settle_fetch, FetchOutcome, LoadError, ModuleKind, NetworkModuleLoader,
    RequestedModuleKind,
};
use function_executor::media::SourceKind;
use function_executor::specifier::ModuleSpecifier;
use function_executor::transpile::{emitted_bytes, make_executable, strip_marks};
use std::path::PathBuf;

fn specifier(text: &str) -> ModuleSpecifier {
    ModuleSpecifier::parse(text).unwrap()
}

fn response(status: u16, final_url: &str, body: &str) -> FetchOutcome {
    FetchOutcome::Response { status, final_url: specifier(final_url), body: body.as_bytes().to_vec() }
}

fn load(text: &str, requested: RequestedModuleKind, outcome: FetchOutcome) -> Result<
    function_executor::loader::LoadedModuleRecord,
    LoadError,
> {
    let plan = NetworkModuleLoader.plan(&specifier(text)).unwrap();
    NetworkModuleLoader.load(plan, requested, outcome)
}

#[test]
fn classification_follows_the_extension() {
    let cases = [
        ("file:///m/a.js", SourceKind::PlainScript),
        ("file:///m/a.mjs", SourceKind::PlainScript),
        ("file:///m/a.cjs", SourceKind::PlainScript),
        ("file:///m/a.jsx", SourceKind::MarkupScript),
        ("file:///m/a.ts", SourceKind::TypedScript),
        ("file:///m/a.mts", SourceKind::TypedScript),
        ("file:///m/a.d.ts", SourceKind::TypedScript),
        ("file:///m/a.d.mts", SourceKind::TypedScript),
        ("file:///m/a.d.cts", SourceKind::TypedScript),
        ("file:///m/a.tsx", SourceKind::TypedScript),
        ("https://h.example/m/a.TS?x=1", SourceKind::TypedScript),
        ("file:///m/a.json", SourceKind::StructuredData),
        ("file:///m/a.cts", SourceKind::TypedScript),
        ("file:///m/a.wasm", SourceKind::PlainScript),
        ("file:///m/a.css", SourceKind::PlainScript),
        ("file:///m/a.jsonc", SourceKind::PlainScript),
        ("file:///m/a", SourceKind::PlainScript),
        ("https://h.example/", SourceKind::PlainScript),
    ];
    for (text, kind) in cases {
        assert_eq!(SourceKind::of_specifier(&specifier(text)), kind, "{}", text);
    }
}

#[test]
fn classification_of_media_type_names() {
    let named = |name: &str| SourceKind::from_media_type_name(Some(name.to_string()));
    assert_eq!(named("JavaScript"), SourceKind::PlainScript);
    assert_eq!(named("Mjs"), SourceKind::PlainScript);
    assert_eq!(named("Cjs"), SourceKind::PlainScript);
    assert_eq!(named("JSX"), SourceKind::MarkupScript);
    assert_eq!(named("TypeScript"), SourceKind::TypedScript);
    assert_eq!(named("Mts"), SourceKind::TypedScript);
    assert_eq!(named("Dts"), SourceKind::TypedScript);
    assert_eq!(named("Dmts"), SourceKind::TypedScript);
    assert_eq!(named("Dcts"), SourceKind::TypedScript);
    assert_eq!(named("TSX"), SourceKind::TypedScript);
    assert_eq!(named("Json"), SourceKind::StructuredData);
    assert_eq!(named("Cts"), SourceKind::TypedScript);
    assert_eq!(named("Unknown"), SourceKind::PlainScript);
    assert_eq!(named("jsx"), SourceKind::PlainScript);
    assert_eq!(named(""), SourceKind::PlainScript);
    assert_eq!(SourceKind::from_media_type_name(None), SourceKind::PlainScript);
}

#[test]
fn only_typed_and_markup_source_is_transpiled() {
    assert!(!SourceKind::PlainScript.requires_transpile());
    assert!(SourceKind::TypedScript.requires_transpile());
    assert!(SourceKind::MarkupScript.requires_transpile());
    assert!(!SourceKind::StructuredData.requires_transpile());
}

#[test]
fn typed_source_is_transpiled_to_plain_script() {
    let source = b"export function main(input: { a: number }): number { return input.a; }\n".to_vec();
    let made = make_executable(&specifier("file:///m/f.ts"), SourceKind::TypedScript, source.clone()).unwrap();
    let text = String::from_utf8(made).unwrap();
    assert_ne!(text.as_bytes(), &source[..]);
    assert_eq!(
        text,
        "export function main(input) {\n  return input.a;\n}\n\
         //# sourceMappingURL=data:application/json;base64,\
         eyJ2ZXJzaW9uIjozLCJzb3VyY2VzIjpbImZpbGU6Ly8vbS9mLnRzIl0sInNvdXJjZXNDb250ZW50IjpbImV4cG9ydCBmdW5jdGlvbiBtYWluKGlucHV0OiB7IGE6IG51bWJlciB9KTogbnVtYmVyIHsgcmV0dXJuIGlucHV0LmE7IH1cbiJdLCJuYW1lcyI6W10sIm1hcHBpbmdzIjoiQUFBQSxPQUFPLFNBQVMsS0FBSyxLQUFvQjtFQUFZLE9BQU8sTUFBTSxDQUFDO0FBQUUifQ=="
    );
}

#[test]
fn markup_source_is_transpiled_to_plain_script() {
    let source = b"export const main = () => <div className=\"x\">hi</div>;\n".to_vec();
    let made = make_executable(&specifier("file:///m/f.jsx"), SourceKind::MarkupScript, source).unwrap();
    let text = String::from_utf8(made).unwrap();
    assert!(
        text.starts_with(
            "export const main = ()=>/*#__PURE__*/ React.createElement(\"div\", {\n    \
             className: \"x\"\n  }, \"hi\");\n//# sourceMappingURL=data:application/json;base64,"
        ),
        "{}",
        text
    );
}

#[test]
fn typed_source_is_read_as_text_before_it_is_transpiled() {
    let source = b"export const main = (): string => \"a\xffb\";\n".to_vec();
    let made = make_executable(&specifier("file:///m/f.ts"), SourceKind::TypedScript, source).unwrap();
    let text = String::from_utf8(made).unwrap();
    assert_eq!(text.lines().next(), Some("export const main = ()=>\"a\u{fffd}b\";"));
}

#[test]
fn byte_order_marks_are_taken_off_before_the_transpiler() {
    let plain = b"export const main = (x: number): number => x;\n".to_vec();
    let expected = make_executable(&specifier("file:///m/f.ts"), SourceKind::TypedScript, plain.clone())
        .unwrap();
    let mut marked = b"\xef\xbb\xbf".to_vec();
    marked.extend_from_slice(&plain);
    let made = make_executable(&specifier("file:///m/f.ts"), SourceKind::TypedScript, marked.clone())
        .unwrap();
    let text = String::from_utf8(made).unwrap();
    assert_eq!(text.lines().next(), Some("export const main = (x)=>x;"));
    assert_eq!(text.lines().next(), String::from_utf8(expected).unwrap().lines().next());
    let mut twice = b"\xef\xbb\xbf".to_vec();
    twice.extend_from_slice(&marked);
    let again = make_executable(&specifier("file:///m/f.ts"), SourceKind::TypedScript, twice).unwrap();
    assert_eq!(String::from_utf8(again).unwrap().lines().next(), Some("export const main = (x)=>x;"));
    assert_eq!(
        make_executable(&specifier("file:///m/f.js"), SourceKind::PlainScript, marked.clone()),
        Ok(marked)
    );
}

#[test]
fn strip_marks_takes_leading_marks_only() {
    assert_eq!(strip_marks(""), "");
    assert_eq!(strip_marks("a"), "a");
    assert_eq!(strip_marks("\u{feff}"), "");
    assert_eq!(strip_marks("\u{feff}a"), "a");
    assert_eq!(strip_marks("\u{feff}\u{feff}\u{e9}\u{feff}b"), "\u{e9}\u{feff}b");
    assert_eq!(strip_marks("a\u{feff}"), "a\u{feff}");
}

#[test]
fn common_js_typed_source_is_transpiled() {
    let record = load(
        "file:///srv/fn/f.cts",
        RequestedModuleKind::Unconstrained,
        FetchOutcome::FileContents(b"export const main = (x: number): number => x;\n".to_vec()),
    )
    .unwrap();
    let text = String::from_utf8(record.source_bytes().clone()).unwrap();
    assert!(!text.contains(": number"), "{}", text);
    assert!(text.contains("main"), "{}", text);
}

#[test]
fn plain_source_passes_unchanged() {
    let source = b"export function main(input) { return input; } // \xff not even text".to_vec();
    assert_eq!(
        make_executable(&specifier("file:///m/f.js"), SourceKind::PlainScript, source.clone()),
        Ok(source.clone())
    );
    assert_eq!(
        make_executable(&specifier("file:///m/f.json"), SourceKind::StructuredData, source.clone()),
        Ok(source)
    );
}

#[test]
fn broken_typed_source_is_a_compile_error() {
    let source = b"export function main(: {\n".to_vec();
    let refused = make_executable(&specifier("file:///m/f.ts"), SourceKind::TypedScript, source);
    assert_eq!(
        refused,
        Err("SyntaxError: Unexpected token `:`. Expected yield, an identifier, [ or {\n  |\n\
             1 | export function main(: {\n  |                      ~\n    at file:///m/f.ts:1:22"
            .to_string())
    );
}

#[test]
fn emitted_text_becomes_bytes() {
    assert_eq!(emitted_bytes(Ok("a\u{e9}".to_string())), Ok(vec![0x61, 0xc3, 0xa9]));
    assert_eq!(emitted_bytes(Err("no".to_string())), Err("no".to_string()));
}

#[test]
fn plan_goes_by_the_scheme() {
    let loader = NetworkModuleLoader;
    let remote = loader.plan(&specifier("https://h.example/f.ts")).unwrap();
    assert_eq!(remote.file_path(), None);
    assert_eq!(remote.specifier().as_str(), "https://h.example/f.ts");
    let plain = loader.plan(&specifier("http://h.example/f.ts")).unwrap();
    assert_eq!(plain.file_path(), None);
    let local = loader.plan(&specifier("file:///srv/fn/f%20g.ts")).unwrap();
    assert_eq!(local.file_path(), Some(&PathBuf::from("/srv/fn/f g.ts")));
    assert_eq!(local.specifier().as_str(), "file:///srv/fn/f%20g.ts");
}

#[test]
fn plan_refuses_other_schemes() {
    let loader = NetworkModuleLoader;
    assert_eq!(
        loader.plan(&specifier("ftp://h.example/f.js")),
        Err(LoadError::UnsupportedScheme("ftp".to_string()))
    );
    assert_eq!(
        loader.plan(&specifier("data:text/javascript,export default 1")),
        Err(LoadError::UnsupportedScheme("data".to_string()))
    );
    assert_eq!(
        loader.plan(&specifier("httpx://h.example/f.js")).unwrap_err().kind(),
        ErrorKind::Load
    );
}

#[test]
fn plan_refuses_a_file_url_without_local_path() {
    let refused = NetworkModuleLoader.plan(&specifier("file://remote.example/srv/f.js"));
    assert_eq!(refused, Err(LoadError::InvalidFileUrl));
    assert_eq!(LoadError::InvalidFileUrl.kind(), ErrorKind::Load);
    assert_eq!(plan_with(&specifier("file:///srv/f.js"), None), Err(LoadError::InvalidFileUrl));
    assert!(plan_with(&specifier("https://h.example/f.js"), None).is_ok());
    assert_eq!(
        plan_with(&specifier("https://h.example/f.js"), Some(PathBuf::from("/x"))).unwrap().file_path(),
        None
    );
}

#[test]
fn load_of_a_local_script() {
    let record = load(
        "file:///srv/fn/f.js",
        RequestedModuleKind::Unconstrained,
        FetchOutcome::FileContents(b"export const main = (x) => x;".to_vec()),
    )
    .unwrap();
    assert_eq!(record.specifier().as_str(), "file:///srv/fn/f.js");
    assert_eq!(record.module_kind(), ModuleKind::Script);
    assert_eq!(record.source_bytes(), &b"export const main = (x) => x;".to_vec());
    assert_eq!(record.redirect_target(), None);
}

#[test]
fn load_of_a_missing_file_fails() {
    for requested in [RequestedModuleKind::Unconstrained, RequestedModuleKind::StructuredData, RequestedModuleKind::Other] {
        let refused = load("file:///srv/fn/missing.js", requested, FetchOutcome::ReadFailed);
        assert_eq!(refused, Err(LoadError::ReadFailed));
        assert_eq!(refused.unwrap_err().kind(), ErrorKind::Load);
    }
    assert_eq!(
        load("file:///srv/fn/missing.js", RequestedModuleKind::Unconstrained, FetchOutcome::RequestFailed),
        Err(LoadError::ReadFailed)
    );
    assert_eq!(
        load(
            "file:///srv/fn/missing.js",
            RequestedModuleKind::Unconstrained,
            response(200, "file:///srv/fn/missing.js", "x")
        ),
        Err(LoadError::ReadFailed)
    );
}

#[test]
fn load_of_a_remote_typed_module() {
    let record = load(
        "https://h.example/f.ts",
        RequestedModuleKind::Unconstrained,
        response(200, "https://h.example/f.ts", "export const main = (x: unknown) => x;"),
    )
    .unwrap();
    assert_eq!(record.module_kind(), ModuleKind::Script);
    assert_eq!(record.redirect_target(), None);
    let text = String::from_utf8(record.source_bytes().clone()).unwrap();
    assert!(text.contains("export const main = (x)=>x;"), "{}", text);
}

#[test]
fn load_of_a_404_is_a_load_error() {
    let refused = load(
        "https://h.example/gone.js",
        RequestedModuleKind::Unconstrained,
        response(404, "https://h.example/gone.js", "not found"),
    );
    assert_eq!(refused, Err(LoadError::HttpStatus(404)));
    let kind = refused.unwrap_err().kind();
    assert_eq!(kind, ErrorKind::Load);
    assert_ne!(kind, ErrorKind::Runtime);
}

#[test]
fn load_takes_success_statuses_only() {
    for status in [200u16, 201, 204, 299] {
        assert!(load("http://h.example/f.js", RequestedModuleKind::Unconstrained, response(status, "http://h.example/f.js", "1")).is_ok());
    }
    for status in [0u16, 100, 199, 300, 304, 400, 404, 500, 599, 600, u16::MAX] {
        assert_eq!(
            load("http://h.example/f.js", RequestedModuleKind::Unconstrained, response(status, "http://h.example/f.js", "1")),
            Err(LoadError::HttpStatus(status))
        );
    }
}

#[test]
fn load_without_response_fails() {
    assert_eq!(
        load("https://h.example/f.js", RequestedModuleKind::Unconstrained, FetchOutcome::RequestFailed),
        Err(LoadError::RequestFailed)
    );
    assert_eq!(
        load("https://h.example/f.js", RequestedModuleKind::Unconstrained, FetchOutcome::ReadFailed),
        Err(LoadError::RequestFailed)
    );
    assert_eq!(
        load("https://h.example/f.js", RequestedModuleKind::Unconstrained, FetchOutcome::FileContents(vec![1])),
        Err(LoadError::RequestFailed)
    );
    assert_eq!(LoadError::RequestFailed.kind(), ErrorKind::Load);
}

#[test]
fn load_records_a_redirect() {
    let record = load(
        "https://h.example/latest/f.js",
        RequestedModuleKind::Unconstrained,
        response(200, "https://cdn.example/v2/f.js", "export const main = 1;"),
    )
    .unwrap();
    assert_eq!(record.specifier().as_str(), "https://h.example/latest/f.js");
    let target = record.redirect_target().unwrap();
    assert_eq!(target.as_str(), "https://cdn.example/v2/f.js");
    assert!(!target.same_as(record.specifier()));
    assert_eq!(record.source_bytes(), &b"export const main = 1;".to_vec());
}

#[test]
fn load_classifies_by_the_requested_specifier() {
    let record = load(
        "https://h.example/f.js",
        RequestedModuleKind::Unconstrained,
        response(200, "https://cdn.example/f.ts", "export const main = 1;"),
    )
    .unwrap();
    assert_eq!(record.source_bytes(), &b"export const main = 1;".to_vec());
}

#[test]
fn load_of_structured_data() {
    let record = load(
        "file:///srv/fn/config.json",
        RequestedModuleKind::StructuredData,
        FetchOutcome::FileContents(b"{\"ok\": true}".to_vec()),
    )
    .unwrap();
    assert_eq!(record.module_kind(), ModuleKind::StructuredData);
    assert_eq!(record.source_bytes(), &b"{\"ok\": true}".to_vec());
}

#[test]
fn load_refuses_mismatched_kinds() {
    let json_unasked = load(
        "file:///srv/fn/config.json",
        RequestedModuleKind::Unconstrained,
        FetchOutcome::FileContents(b"{}".to_vec()),
    );
    assert_eq!(
        json_unasked,
        Err(LoadError::ModuleKindMismatch {
            requested: RequestedModuleKind::Unconstrained,
            classified: SourceKind::StructuredData
        })
    );
    let script_as_json = load(
        "file:///srv/fn/f.js",
        RequestedModuleKind::StructuredData,
        FetchOutcome::FileContents(b"1".to_vec()),
    );
    assert_eq!(
        script_as_json,
        Err(LoadError::ModuleKindMismatch {
            requested: RequestedModuleKind::StructuredData,
            classified: SourceKind::PlainScript
        })
    );
    assert_eq!(script_as_json.unwrap_err().kind(), ErrorKind::ModuleKindMismatch);
}

#[test]
fn load_refuses_any_other_requested_kind() {
    for (text, body) in [
        ("file:///srv/fn/f.js", "export const main = 1;"),
        ("file:///srv/fn/f.ts", "export const main: number = 1;"),
        ("file:///srv/fn/f.json", "{}"),
        ("file:///srv/fn/f.css", "a {}"),
    ] {
        let refused = load(text, RequestedModuleKind::Other, FetchOutcome::FileContents(body.as_bytes().to_vec()));
        assert_eq!(refused.unwrap_err().kind(), ErrorKind::ModuleKindMismatch, "{}", text);
    }
}

#[test]
fn load_reports_fetch_and_compile_failures_before_the_kind() {
    assert_eq!(
        load("file:///srv/fn/f.js", RequestedModuleKind::Other, FetchOutcome::ReadFailed),
        Err(LoadError::ReadFailed)
    );
    let broken = load(
        "file:///srv/fn/f.ts",
        RequestedModuleKind::Other,
        FetchOutcome::FileContents(b"export function (: {".to_vec()),
    );
    assert_eq!(broken.unwrap_err().kind(), ErrorKind::Compile);
}

#[test]
fn load_of_broken_typed_source_is_a_compile_error() {
    let broken = load(
        "https://h.example/f.tsx",
        RequestedModuleKind::Unconstrained,
        response(200, "https://h.example/f.tsx", "const x: = <;"),
    );
    match broken {
        Err(LoadError::Compile(message)) => assert!(!message.is_empty()),
        other => panic!("{:?}", other),
    }
}

#[test]
fn settle_fetch_takes_what_the_plan_asked_for() {
    let remote = NetworkModuleLoader.plan(&specifier("https://h.example/f.js")).unwrap();
    assert_eq!(
        settle_fetch(&remote, response(200, "https://h.example/f.js", "ab")),
        Ok((b"ab".to_vec(), None))
    );
    assert_eq!(
        settle_fetch(&remote, response(200, "https://h.example/g.js", "ab")),
        Ok((b"ab".to_vec(), Some(specifier("https://h.example/g.js"))))
    );
    assert_eq!(
        settle_fetch(&remote, response(500, "https://h.example/g.js", "ab")),
        Err(LoadError::HttpStatus(500))
    );
    let local = NetworkModuleLoader.plan(&specifier("file:///f.js")).unwrap();
    assert_eq!(settle_fetch(&local, FetchOutcome::FileContents(vec![7, 8])), Ok((vec![7, 8], None)));
    assert_eq!(settle_fetch(&local, FetchOutcome::ReadFailed), Err(LoadError::ReadFailed));
}

#[test]
fn reconcile_meets_two_requests_only() {
    let (unconstrained, structured, other) = (
        RequestedModuleKind::Unconstrained,
        RequestedModuleKind::StructuredData,
        RequestedModuleKind::Other,
    );
    assert_eq!(reconcile(unconstrained, SourceKind::PlainScript), Ok(ModuleKind::Script));
    assert_eq!(reconcile(unconstrained, SourceKind::TypedScript), Ok(ModuleKind::Script));
    assert_eq!(reconcile(unconstrained, SourceKind::MarkupScript), Ok(ModuleKind::Script));
    assert_eq!(reconcile(structured, SourceKind::StructuredData), Ok(ModuleKind::StructuredData));
    for (requested, classified) in [
        (unconstrained, SourceKind::StructuredData),
        (structured, SourceKind::PlainScript),
        (structured, SourceKind::TypedScript),
        (structured, SourceKind::MarkupScript),
        (other, SourceKind::PlainScript),
        (other, SourceKind::TypedScript),
        (other, SourceKind::MarkupScript),
        (other, SourceKind::StructuredData),
    ] {
        assert_eq!(
            reconcile(requested, classified),
            Err(LoadError::ModuleKindMismatch { requested, classified })
        );
    }
}

#[test]
fn load_errors_have_one_kind_each() {
    assert_eq!(LoadError::UnsupportedScheme("x".to_string()).kind(), ErrorKind::Load);
    assert_eq!(LoadError::InvalidFileUrl.kind(), ErrorKind::Load);
    assert_eq!(LoadError::RequestFailed.kind(), ErrorKind::Load);
    assert_eq!(LoadError::HttpStatus(404).kind(), ErrorKind::Load);
    assert_eq!(LoadError::ReadFailed.kind(), ErrorKind::Load);
    assert_eq!(LoadError::Compile("x".to_string()).kind(), ErrorKind::Compile);
}
