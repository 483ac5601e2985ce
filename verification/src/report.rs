use vstd::prelude::*;

verus! {

/// The mathematical content of a report: its title and optional logo URL.
pub struct ReportModel {
    pub title: Seq<char>,
    pub logo_url: Option<Seq<char>>,
}

/// A report is well formed when its title is non-empty.
pub open spec fn report_wf(m: ReportModel) -> bool {
    m.title.len() > 0
}

/// The single summary record describing one analysis run: the tool's name
/// as title and an optional logo URL for display branding. Values exist
/// only through `Report::new`, so every value satisfies `report_wf` and is
/// immutable afterwards.
#[derive(Debug)]
pub struct Report {
    title: String,
    logo_url: Option<String>,
}

impl DeepView for Report {
    type V = ReportModel;

    closed spec fn deep_view(&self) -> ReportModel {
        ReportModel { title: self.title.deep_view(), logo_url: self.logo_url.deep_view() }
    }
}

impl Report {
    /// Assemble the run's summary report. Given a non-empty title it always
    /// succeeds and carries both inputs unchanged.
    pub fn new(title: String, logo_url: Option<String>) -> (r: Report)
        requires
            title@.len() > 0,
        ensures
            r.deep_view() == (ReportModel { title: title@, logo_url: logo_url.deep_view() }),
            report_wf(r.deep_view()),
    {
        Report { title, logo_url }
    }

    /// The tool name the report announces; never empty.
    pub fn title(&self) -> (r: &String)
        ensures
            r@ == self.deep_view().title,
    {
        &self.title
    }

    /// The logo URL the report carries, if any.
    pub fn logo_url(&self) -> (r: &Option<String>)
        ensures
            r.deep_view() == self.deep_view().logo_url,
    {
        &self.logo_url
    }
}

} // verus!
