use vstd::prelude::*;

use crate::severity::Severity;

verus! {

/// Why the annotation builder rejected its input.
#[derive(Clone, Copy, Debug, PartialEq, Eq, Structural)]
pub enum ValidationError {
    /// The message text was empty or absent.
    EmptyMessage,
    /// No severity was supplied.
    MissingSeverity,
    /// A path was supplied without a line, or a line without a path.
    IncompleteLocation,
}

/// The mathematical content of an annotation: message text, severity, and
/// the optional source location.
pub struct AnnotationModel {
    pub message: Seq<char>,
    pub severity: Severity,
    pub path: Option<Seq<char>>,
    pub line: Option<u64>,
}

/// An annotation is well formed when its message is non-empty and path and
/// line are present together or absent together.
pub open spec fn annotation_wf(m: AnnotationModel) -> bool {
    &&& m.message.len() > 0
    &&& m.path is Some <==> m.line is Some
}

/// One validated finding, optionally attached to a source location. Values
/// exist only through `Annotation::build`, so every value satisfies
/// `annotation_wf` and is immutable afterwards.
#[derive(Debug)]
pub struct Annotation {
    message: String,
    severity: Severity,
    path: Option<String>,
    line: Option<u64>,
}

impl DeepView for Annotation {
    type V = AnnotationModel;

    closed spec fn deep_view(&self) -> AnnotationModel {
        AnnotationModel {
            message: self.message.deep_view(),
            severity: self.severity,
            path: self.path.deep_view(),
            line: self.line,
        }
    }
}

/// What `Annotation::build` decides: an empty message is rejected first,
/// then a missing severity, then a location with only one of path and line;
/// any other input builds the annotation with every field unchanged.
pub open spec fn build_spec(
    message: Seq<char>,
    severity: Option<Severity>,
    path: Option<Seq<char>>,
    line: Option<u64>,
) -> Result<AnnotationModel, ValidationError> {
    if message.len() == 0 {
        Err(ValidationError::EmptyMessage)
    } else if severity is None {
        Err(ValidationError::MissingSeverity)
    } else if (path is Some) != (line is Some) {
        Err(ValidationError::IncompleteLocation)
    } else {
        Ok(AnnotationModel { message, severity: severity->0, path, line })
    }
}

/// The model of a build result: the annotation's model on success, the
/// validation error unchanged on failure.
pub open spec fn build_result_view(r: Result<Annotation, ValidationError>) -> Result<
    AnnotationModel,
    ValidationError,
> {
    match r {
        Ok(a) => Ok(a.deep_view()),
        Err(e) => Err(e),
    }
}

impl Annotation {
    /// Validate and assemble one annotation. Fails exactly as `build_spec`
    /// says: `EmptyMessage` on an empty message, `MissingSeverity` when no
    /// severity is supplied, `IncompleteLocation` when only one of path and
    /// line is given; otherwise the finished annotation carries the inputs
    /// unchanged.
    pub fn build(
        message: String,
        severity: Option<Severity>,
        path: Option<String>,
        line: Option<u64>,
    ) -> (r: Result<Annotation, ValidationError>)
        ensures
            build_result_view(r) == build_spec(message@, severity, path.deep_view(), line),
            r matches Ok(a) ==> annotation_wf(a.deep_view()),
    {
        if message.as_str().is_empty() {
            return Err(ValidationError::EmptyMessage);
        }
        let sev = match severity {
            Some(s) => s,
            None => return Err(ValidationError::MissingSeverity),
        };
        if path.is_some() != line.is_some() {
            return Err(ValidationError::IncompleteLocation);
        }
        Ok(Annotation { message, severity: sev, path, line })
    }

    /// The finding's message text; never empty.
    pub fn message(&self) -> (r: &String)
        ensures
            r@ == self.deep_view().message,
    {
        &self.message
    }

    /// The finding's severity.
    pub fn severity(&self) -> (r: Severity)
        ensures
            r == self.deep_view().severity,
    {
        self.severity
    }

    /// The file the finding points at, if it carries a location.
    pub fn path(&self) -> (r: &Option<String>)
        ensures
            r.deep_view() == self.deep_view().path,
    {
        &self.path
    }

    /// The 1-based source line the finding points at, if it carries a
    /// location.
    pub fn line(&self) -> (r: Option<u64>)
        ensures
            r == self.deep_view().line,
    {
        self.line
    }
}

/// Law: for every non-empty message and supplied severity, with path and
/// line present together or absent together, the builder succeeds and
/// returns the message, severity, path and line unchanged.
pub proof fn lemma_build_round_trip(
    message: Seq<char>,
    severity: Severity,
    path: Option<Seq<char>>,
    line: Option<u64>,
)
    requires
        message.len() > 0,
        path is Some <==> line is Some,
    ensures
        build_spec(message, Some(severity), path, line) matches Ok(a) && a.message == message
            && a.severity == severity && a.path == path && a.line == line,
{
}

/// Law: an empty message is always rejected with the empty-message error,
/// whatever the severity and location.
pub proof fn lemma_empty_message_rejected(
    message: Seq<char>,
    severity: Option<Severity>,
    path: Option<Seq<char>>,
    line: Option<u64>,
)
    requires
        message.len() == 0,
    ensures
        build_spec(message, severity, path, line) == Err::<AnnotationModel, ValidationError>(
            ValidationError::EmptyMessage,
        ),
{
}

/// Law: a location with a path but no line, or a line but no path, is
/// always rejected with the incomplete-location error, for every non-empty
/// message and supplied severity.
pub proof fn lemma_incomplete_location_rejected(
    message: Seq<char>,
    severity: Severity,
    path: Option<Seq<char>>,
    line: Option<u64>,
)
    requires
        message.len() > 0,
        (path is Some) != (line is Some),
    ensures
        build_spec(message, Some(severity), path, line) == Err::<AnnotationModel, ValidationError>(
            ValidationError::IncompleteLocation,
        ),
{
}

/// Law: every annotation the builder hands out is well formed.
pub proof fn lemma_built_annotations_wf(
    message: Seq<char>,
    severity: Option<Severity>,
    path: Option<Seq<char>>,
    line: Option<u64>,
)
    ensures
        build_spec(message, severity, path, line) matches Ok(a) ==> annotation_wf(a),
{
}

/// The ordered batch of annotations produced by one run: insertion order
/// preserved, duplicates kept, possibly empty.
#[derive(Debug)]
pub struct Annotations {
    annotations: Vec<Annotation>,
}

impl DeepView for Annotations {
    type V = Seq<AnnotationModel>;

    closed spec fn deep_view(&self) -> Seq<AnnotationModel> {
        self.annotations.deep_view()
    }
}

impl Annotations {
    /// Wrap a finished batch. Always succeeds, the empty batch included,
    /// and keeps the items and their order unchanged.
    pub fn new(items: Vec<Annotation>) -> (r: Annotations)
        ensures
            r.deep_view() == items.deep_view(),
    {
        Annotations { annotations: items }
    }

    /// How many annotations the batch holds.
    pub fn len(&self) -> (n: usize)
        ensures
            n == self.deep_view().len(),
    {
        self.annotations.len()
    }

    /// The annotations, in emission order.
    pub fn items(&self) -> (r: &Vec<Annotation>)
        ensures
            r.deep_view() == self.deep_view(),
    {
        &self.annotations
    }
}

} // verus!
