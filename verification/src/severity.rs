use vstd::prelude::*;

verus! {

/// The closed three-level urgency classification attached to every
/// annotation. No other values are constructible.
#[derive(Clone, Copy, Debug, PartialEq, Eq, Structural)]
pub enum Severity {
    Low,
    Medium,
    High,
}

/// What `classify` returns for a linter level string: `note` and `help` are
/// Low, `warning` is Medium, `error` is High, and every other level falls
/// back to Medium.
pub open spec fn classify_spec(level: Seq<char>) -> Severity {
    if level == "note"@ || level == "help"@ {
        Severity::Low
    } else if level == "warning"@ {
        Severity::Medium
    } else if level == "error"@ {
        Severity::High
    } else {
        Severity::Medium
    }
}

/// Map a linter-reported level string to a severity. Unknown or future
/// levels fall back to Medium, so the mapping is total and never fails.
pub fn classify(level: &str) -> (s: Severity)
    ensures
        s == classify_spec(level@),
{
    let l: String = level.to_owned();
    if l == "note".to_owned() || l == "help".to_owned() {
        Severity::Low
    } else if l == "warning".to_owned() {
        Severity::Medium
    } else if l == "error".to_owned() {
        Severity::High
    } else {
        Severity::Medium
    }
}

/// The wire spelling of a severity in a published annotation payload.
pub open spec fn severity_label_spec(s: Severity) -> Seq<char> {
    match s {
        Severity::Low => "LOW"@,
        Severity::Medium => "MEDIUM"@,
        Severity::High => "HIGH"@,
    }
}

/// Spell a severity the way the annotation wire format expects it.
pub fn severity_label(s: Severity) -> (r: String)
    ensures
        r@ == severity_label_spec(s),
{
    match s {
        Severity::Low => "LOW".to_owned(),
        Severity::Medium => "MEDIUM".to_owned(),
        Severity::High => "HIGH".to_owned(),
    }
}

/// Law: `note` and `help` classify as Low, `warning` as Medium, `error` as
/// High, and any other level string (the empty one included) as Medium.
pub proof fn lemma_classify_cases(level: Seq<char>)
    ensures
        level == "note"@ || level == "help"@ ==> classify_spec(level) == Severity::Low,
        level == "warning"@ ==> classify_spec(level) == Severity::Medium,
        level == "error"@ ==> classify_spec(level) == Severity::High,
        level != "note"@ && level != "help"@ && level != "error"@ ==> classify_spec(level)
            == Severity::Medium,
{
    reveal_strlit("note");
    reveal_strlit("help");
    reveal_strlit("warning");
    reveal_strlit("error");
    assert("note"@.len() == 4);
    assert("help"@.len() == 4);
    assert("warning"@.len() == 7);
    assert("error"@.len() == 5);
    assert("warning"@[0] == 'w' && "note"@[0] == 'n' && "help"@[0] == 'h' && "error"@[0] == 'e');
}

} // verus!
