use mould::session::Request;
use mould_nfd::error::DialogError;
use mould_nfd::mode::DialogMode;
use mould_nfd::worker::CancelPolicy;
use mould_nfd::worker::DialogConfig;
use mould_nfd::worker::DialogWorker;
use mould_nfd::worker::Phase;
use mould_nfd::worker::Shortcut;
use mould_nfd::DialogPermission;
use serde_json::Value;

fn request(fields: &[(&str, Value)]) -> Request {
    let mut payload = serde_json::Map::new();
    for (key, value) in fields {
        payload.insert(key.to_string(), value.clone());
    }
    Request { action: "show-dialog".to_string(), payload }
}

fn text(value: &str) -> Value {
    Value::String(value.to_string())
}

fn some(value: &str) -> Option<String> {
    Some(value.to_string())
}

#[test]
fn parse_knows_the_four_modes_and_the_default() {
    assert_eq!(DialogMode::parse(None), Ok(DialogMode::SingleFile));
    assert_eq!(DialogMode::parse(some("open")), Ok(DialogMode::SingleFile));
    assert_eq!(DialogMode::parse(some("multiple")), Ok(DialogMode::MultipleFiles));
    assert_eq!(DialogMode::parse(some("save")), Ok(DialogMode::SaveFile));
    assert_eq!(DialogMode::parse(some("folder")), Ok(DialogMode::PickFolder));
}

#[test]
fn parse_hands_an_unknown_mode_back() {
    for mode in ["", "Open", "open ", "print", "files", "saves"] {
        assert_eq!(
            DialogMode::parse(some(mode)),
            Err(DialogError::UnsupportedMode(mode.to_string()))
        );
    }
}

#[test]
fn messages_are_the_documented_ones() {
    assert_eq!(
        DialogError::UnsupportedMode("print".to_string()).message(),
        "Unsupported mode print"
    );
    assert_eq!(DialogError::UnsupportedMode(String::new()).message(), "Unsupported mode ");
    assert_eq!(DialogError::MissingPermission.message(), "You haven't permissions.");
    assert_eq!(DialogError::Canceled.message(), "Dialog was canceled!");
    assert_eq!(DialogError::Native("no display".to_string()).message(), "no display");
}

#[test]
fn the_permission_asked_for_is_to_open_a_single_file() {
    let worker = DialogWorker::new(CancelPolicy::Strict);
    assert_eq!(worker.required_permission(), DialogPermission::CanOpenSingle);
}

#[test]
fn absent_mode_resolves_to_single_file() {
    let mut worker = DialogWorker::new(CancelPolicy::Strict);
    assert_eq!(worker.prepare(true, request(&[])), Ok(Shortcut::Tuned));
    assert_eq!(worker.phase(), Phase::Prepared);
    assert_eq!(
        worker.pending_dialog(),
        Some(&DialogConfig { path: None, filter: None, mode: DialogMode::SingleFile })
    );
}

#[test]
fn fields_of_the_request_are_stored() {
    let mut worker = DialogWorker::new(CancelPolicy::Permissive);
    let verdict = worker.prepare(
        true,
        request(&[("mode", text("save")), ("path", text("/tmp")), ("filter", text("csv,txt"))]),
    );
    assert_eq!(verdict, Ok(Shortcut::Tuned));
    assert_eq!(worker.phase(), Phase::Prepared);
    assert_eq!(
        worker.config(),
        &DialogConfig { path: some("/tmp"), filter: some("csv,txt"), mode: DialogMode::SaveFile }
    );
    assert_eq!(worker.pending_dialog(), Some(worker.config()));
}

#[test]
fn each_mode_of_a_request_selects_its_picker() {
    let cases = [
        ("open", DialogMode::SingleFile),
        ("multiple", DialogMode::MultipleFiles),
        ("save", DialogMode::SaveFile),
        ("folder", DialogMode::PickFolder),
    ];
    for (mode, expected) in cases {
        let mut worker = DialogWorker::new(CancelPolicy::Strict);
        assert_eq!(worker.prepare(true, request(&[("mode", text(mode))])), Ok(Shortcut::Tuned));
        assert_eq!(worker.config().mode, expected);
    }
}

#[test]
fn a_field_that_is_no_text_counts_as_absent() {
    let mut worker = DialogWorker::new(CancelPolicy::Strict);
    let verdict = worker.prepare(
        true,
        request(&[("mode", Value::Bool(true)), ("path", Value::Null), ("filter", text("png"))]),
    );
    assert_eq!(verdict, Ok(Shortcut::Tuned));
    assert_eq!(
        worker.config(),
        &DialogConfig { path: None, filter: some("png"), mode: DialogMode::SingleFile }
    );
}

#[test]
fn unsupported_mode_is_rejected_with_its_name() {
    let mut worker = DialogWorker::new(CancelPolicy::Strict);
    let verdict = worker.prepare(true, request(&[("mode", text("print")), ("path", text("/tmp"))]));
    assert_eq!(verdict, Err(DialogError::UnsupportedMode("print".to_string())));
    assert_eq!(verdict.unwrap_err().message(), "Unsupported mode print");
    assert_eq!(worker.phase(), Phase::Rejected);
    assert!(worker.pending_dialog().is_none());
    assert_eq!(
        worker.config(),
        &DialogConfig { path: None, filter: None, mode: DialogMode::SingleFile }
    );
}

#[test]
fn unsupported_mode_is_reported_before_the_missing_permission() {
    let mut worker = DialogWorker::new(CancelPolicy::Permissive);
    let verdict = worker.prepare(false, request(&[("mode", text("directory"))]));
    assert_eq!(verdict, Err(DialogError::UnsupportedMode("directory".to_string())));
    assert_eq!(worker.phase(), Phase::Rejected);
}

#[test]
fn unauthorized_caller_is_rejected_whatever_the_fields() {
    let requests = [
        request(&[]),
        request(&[("mode", text("open"))]),
        request(&[("mode", text("multiple")), ("filter", text("jpg"))]),
        request(&[("mode", text("save")), ("path", text("/tmp"))]),
        request(&[("mode", text("folder")), ("path", text("/home"))]),
    ];
    for request in requests {
        let mut worker = DialogWorker::new(CancelPolicy::Permissive);
        let verdict = worker.prepare(false, request);
        assert_eq!(verdict, Err(DialogError::MissingPermission));
        assert_eq!(verdict.unwrap_err().message(), "You haven't permissions.");
        assert_eq!(worker.phase(), Phase::Rejected);
        assert!(worker.pending_dialog().is_none());
    }
}

#[test]
fn prepare_fields_agrees_with_prepare() {
    let mut by_fields = DialogWorker::new(CancelPolicy::Strict);
    let mut by_request = DialogWorker::new(CancelPolicy::Strict);
    let first = by_fields.prepare_fields(some("/srv"), None, some("multiple"), true);
    let second =
        by_request.prepare(true, request(&[("path", text("/srv")), ("mode", text("multiple"))]));
    assert_eq!(first, second);
    assert_eq!(by_fields.config(), by_request.config());
    assert_eq!(by_fields.phase(), by_request.phase());
}
