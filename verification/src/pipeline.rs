use vstd::prelude::*;

use crate::annotation::{Annotation, AnnotationModel, Annotations};
use crate::record::{annotation_of_record, parse_record, record_of, record_to_annotation};
use crate::report::{Report, ReportModel};

verus! {

/// What the mapper emits for one raw line: nothing when the line does not
/// decode as a structured record, and otherwise whatever its record yields.
pub open spec fn line_annotation(line: Seq<char>) -> Option<AnnotationModel> {
    match record_of(line) {
        Some(m) => annotation_of_record(m),
        None => None,
    }
}

/// The annotations a whole diagnostic stream yields, in emission order:
/// each line contributes its annotation, or nothing.
pub open spec fn annotations_of_lines(lines: Seq<Seq<char>>) -> Seq<AnnotationModel>
    decreases lines.len(),
{
    if lines.len() == 0 {
        Seq::empty()
    } else {
        annotations_of_lines(lines.drop_last()) + (match line_annotation(lines.last()) {
            Some(a) => seq![a],
            None => Seq::empty(),
        })
    }
}

/// Map a raw diagnostic stream to its annotations: decode each line, keep
/// the compiler messages that validate, skip every other line silently, and
/// preserve the emission order.
pub fn annotations_from_lines(lines: &Vec<String>) -> (r: Vec<Annotation>)
    ensures
        r.deep_view() == annotations_of_lines(lines.deep_view()),
{
    let ghost all = lines.deep_view();
    let mut out: Vec<Annotation> = Vec::new();
    let mut i: usize = 0;
    while i < lines.len()
        invariant
            i <= lines.len(),
            all == lines.deep_view(),
            out.deep_view() == annotations_of_lines(all.take(i as int)),
        decreases lines.len() - i,
    {
        let ghost prev = out.deep_view();
        let parsed = parse_record(lines[i].as_str());
        proof {
            assert(all[i as int] == lines@[i as int]@);
        }
        match parsed {
            Some(rec) => {
                match record_to_annotation(rec) {
                    Some(a) => {
                        let ghost av = a.deep_view();
                        out.push(a);
                        proof {
                            assert(out.deep_view() =~= prev.push(av));
                        }
                    },
                    None => (),
                }
            },
            None => (),
        }
        proof {
            let t = all.take(i as int + 1);
            assert(t.drop_last() =~= all.take(i as int));
            assert(t.last() == all[i as int]);
            assert(out.deep_view() =~= annotations_of_lines(t));
        }
        i = i + 1;
    }
    proof {
        assert(all.take(lines@.len() as int) =~= all);
    }
    out
}

/// One whole run of the core: map the diagnostic stream to its annotation
/// batch and assemble the summary report. The caller hands the report to
/// its publisher first, then the batch.
pub fn run_pipeline(lines: &Vec<String>, title: String, logo_url: Option<String>) -> (r: (
    Report,
    Annotations,
))
    requires
        title@.len() > 0,
    ensures
        r.0.deep_view() == (ReportModel { title: title@, logo_url: logo_url.deep_view() }),
        r.1.deep_view() == annotations_of_lines(lines.deep_view()),
{
    let report = Report::new(title, logo_url);
    let annotations = Annotations::new(annotations_from_lines(lines));
    (report, annotations)
}

/// Law: mapping a concatenation of two streams maps each part in turn, so
/// what one part yields never disturbs the other.
pub proof fn lemma_lines_concat(a: Seq<Seq<char>>, b: Seq<Seq<char>>)
    ensures
        annotations_of_lines(a + b) == annotations_of_lines(a) + annotations_of_lines(b),
    decreases b.len(),
{
    if b.len() == 0 {
        assert(a + b =~= a);
        assert(annotations_of_lines(a) + annotations_of_lines(b) =~= annotations_of_lines(a));
    } else {
        let c = match line_annotation(b.last()) {
            Some(x) => seq![x],
            None => Seq::<AnnotationModel>::empty(),
        };
        lemma_lines_concat(a, b.drop_last());
        assert((a + b).drop_last() =~= a + b.drop_last());
        assert((a + b).last() == b.last());
        assert(annotations_of_lines(a + b) == annotations_of_lines(a) + annotations_of_lines(
            b.drop_last(),
        ) + c);
        assert(annotations_of_lines(a) + annotations_of_lines(b.drop_last()) + c
            =~= annotations_of_lines(a) + (annotations_of_lines(b.drop_last()) + c));
    }
}

/// Law: a line that does not decode as a structured record yields nothing,
/// and the lines around it are mapped exactly as if it were absent — one
/// bad line never disturbs the mapping of the rest of the stream.
pub proof fn lemma_unparsable_line_skipped(
    before: Seq<Seq<char>>,
    line: Seq<char>,
    after: Seq<Seq<char>>,
)
    requires
        record_of(line) is None,
    ensures
        annotations_of_lines(before + seq![line] + after) == annotations_of_lines(before + after),
{
    lemma_lines_concat(before, seq![line]);
    lemma_lines_concat(before + seq![line], after);
    lemma_lines_concat(before, after);
    assert(seq![line].drop_last() =~= Seq::<Seq<char>>::empty());
    assert(seq![line].last() == line);
    assert(annotations_of_lines(Seq::<Seq<char>>::empty()) =~= Seq::<AnnotationModel>::empty());
    assert(annotations_of_lines(seq![line]) =~= Seq::<AnnotationModel>::empty());
    assert(annotations_of_lines(before + seq![line]) =~= annotations_of_lines(before));
}

} // verus!
