//! Series names and the per-series derived view.
//!
//! A series name must match `^[a-z0-9_]+$`; the store itself enforces that
//! rule as a check constraint, and the ingestion core never pre-validates it
//! on the request path.  A view scoped to one series is identified by a
//! deterministic name (the fixed prefix `tsdata_` plus the series name) and
//! defined by textual substitution of the series name into a fixed template.
//! That substitution is reached only through [`ValidatedSeries`], a witness
//! produced after a row carrying the name has been accepted by the store, so
//! it can never run on an unvalidated name.

use vstd::prelude::*;
use vstd::string::*;

verus! {

/// Whether `c` may occur in a series name: lower-case ASCII letters, digits
/// and underscores only.
pub open spec fn is_valid_series_char(c: char) -> bool {
    ('a' <= c && c <= 'z') || ('0' <= c && c <= '9') || c == '_'
}

/// Whether `s` is a well-shaped series name: non-empty, every character
/// admitted by [`is_valid_series_char`].  This is the shape the store's
/// check constraint enforces.
pub open spec fn is_valid_series_name(s: Seq<char>) -> bool {
    s.len() > 0 && forall|i: int| 0 <= i < s.len() ==> is_valid_series_char(#[trigger] s[i])
}

/// Decides [`is_valid_series_name`] on a series name candidate.
pub fn series_name_ok(s: &str) -> (r: bool)
    ensures
        r == is_valid_series_name(s@),
{
    let len = s.unicode_len();
    if len == 0 {
        return false;
    }
    let mut i: usize = 0;
    while i < len
        invariant
            len == s@.len(),
            0 <= i <= len,
            forall|j: int| 0 <= j < i ==> is_valid_series_char(#[trigger] s@[j]),
        decreases len - i,
    {
        let c = s.get_char(i);
        let ok = ('a' <= c && c <= 'z') || ('0' <= c && c <= '9') || c == '_';
        if !ok {
            return false;
        }
        i = i + 1;
    }
    true
}

/// The deterministic name of the view scoped to `series`: the fixed prefix
/// `tsdata_` followed by the series name.
pub open spec fn spec_view_name(series: Seq<char>) -> Seq<char> {
    "tsdata_"@ + series
}

/// The definition text of the view scoped to `series`: a `CREATE OR REPLACE
/// VIEW` statement selecting exactly the base rows whose series name equals
/// `series`.
pub open spec fn spec_create_view_sql(series: Seq<char>) -> Seq<char> {
    "CREATE OR REPLACE VIEW tsdata_"@ + series
        + " AS (SELECT * FROM tsdata WHERE series_name = '"@ + series + "')"@
}

/// A series name that the store has accepted: at least one row carrying it
/// was inserted (and thus checked against the store's constraint) within the
/// current transaction.  Only that step produces a value of this type, so
/// view-definition text can never be built from an unvalidated name.
pub struct ValidatedSeries {
    name: String,
}

impl View for ValidatedSeries {
    type V = Seq<char>;

    closed spec fn view(&self) -> Seq<char> {
        self.name@
    }
}

impl ValidatedSeries {
    /// Whether the witnessed name really has the store-accepted shape.
    pub closed spec fn wf(&self) -> bool {
        is_valid_series_name(self.name@)
    }

    /// Wraps a name the store has just accepted.  Reserved to the insert
    /// step: nothing else may mint the witness.
    pub(crate) fn new(name: String) -> (r: ValidatedSeries)
        requires
            is_valid_series_name(name@),
        ensures
            r.wf(),
            r@ == name@,
    {
        ValidatedSeries { name }
    }

    /// The witnessed series name.
    pub fn name(&self) -> (r: &str)
        ensures
            r@ == self@,
    {
        self.name.as_str()
    }

    /// The witnessed series name, as an owned-string reference.
    pub fn name_string(&self) -> (r: &String)
        ensures
            r@ == self@,
    {
        &self.name
    }

    /// The deterministic name of this series' view.
    pub fn view_name(&self) -> (r: String)
        ensures
            r@ == spec_view_name(self@),
    {
        let mut out = String::new();
        out.append("tsdata_");
        out.append(self.name.as_str());
        proof {
            assert(out@ =~= spec_view_name(self@));
        }
        out
    }

    /// The definition text of this series' view, built by direct textual
    /// substitution — safe exactly because `self` witnesses a store-accepted
    /// name.
    pub fn create_view_sql(&self) -> (r: String)
        ensures
            r@ == spec_create_view_sql(self@),
    {
        let mut out = String::new();
        out.append("CREATE OR REPLACE VIEW tsdata_");
        out.append(self.name.as_str());
        out.append(" AS (SELECT * FROM tsdata WHERE series_name = '");
        out.append(self.name.as_str());
        out.append("')");
        proof {
            assert(out@ =~= spec_create_view_sql(self@));
        }
        out
    }
}

/// The view-definition text for `series`, or `None` when the name does not
/// have the store-accepted shape.  For callers that drive an external store:
/// the check makes the textual substitution unreachable with an invalid
/// name even there.
pub fn create_series_view_sql(series: &str) -> (r: Option<String>)
    ensures
        match r {
            Option::Some(sql) => is_valid_series_name(series@) && sql@ == spec_create_view_sql(
                series@,
            ),
            Option::None => !is_valid_series_name(series@),
        },
{
    if series_name_ok(series) {
        let validated = ValidatedSeries::new(String::from_str(series));
        Some(validated.create_view_sql())
    } else {
        None
    }
}

} // verus!
