//! The error that carries every failure of one validation.
use vstd::prelude::*;
use vstd::std_specs::cmp::PartialEqSpecImpl;

use crate::text::{decimal, decimal_text, same_text};

verus! {

/// Error containing all validation failures.
#[derive(Debug)]
pub struct ValidationError {
    pub errors: Vec<String>,
}

impl View for ValidationError {
    type V = Seq<Seq<char>>;

    open spec fn view(&self) -> Seq<Seq<char>> {
        self.errors.deep_view()
    }
}

/// The lines listing `errors`, one `"  - <error>\n"` per error, in order.
pub open spec fn listed_errors(errors: Seq<Seq<char>>) -> Seq<char>
    decreases errors.len(),
{
    if errors.len() == 0 {
        Seq::empty()
    } else {
        listed_errors(errors.drop_last()) + "  - "@ + errors.last() + "\n"@
    }
}

/// The text of a validation error: a count line, then one line per error.
pub open spec fn error_report(errors: Seq<Seq<char>>) -> Seq<char> {
    decimal(errors.len()) + " validation error(s):\n"@ + listed_errors(errors)
}

impl ValidationError {
    /// The human-readable report: `"<n> validation error(s):"` followed by
    /// one `"  - <error>"` line per error.
    pub fn report(&self) -> (text: String)
        ensures
            text@ == error_report(self@),
    {
        let mut text = decimal_text(self.errors.len() as u64);
        text.append(" validation error(s):\n");
        let mut i: usize = 0;
        while i < self.errors.len()
            invariant
                i <= self@.len(),
                self@.len() == self.errors@.len(),
                text@ == decimal(self@.len()) + " validation error(s):\n"@ + listed_errors(
                    self@.take(i as int),
                ),
            decreases self.errors@.len() - i,
        {
            proof {
                assert(self@.take(i + 1).drop_last() =~= self@.take(i as int));
                assert(self@.take(i + 1).last() == self.errors@[i as int]@);
            }
            text.append("  - ");
            text.append(self.errors[i].as_str());
            text.append("\n");
            proof {
                assert(text@ =~= decimal(self@.len()) + " validation error(s):\n"@ + listed_errors(
                    self@.take(i + 1),
                ));
            }
            i = i + 1;
        }
        assert(self@.take(self@.len() as int) =~= self@);
        text
    }
}

impl PartialEq for ValidationError {
    fn eq(&self, other: &Self) -> (same: bool) {
        let n = self.errors.len();
        if n != other.errors.len() {
            return false;
        }
        let mut i: usize = 0;
        while i < n
            invariant
                n == self@.len(),
                n == other@.len(),
                self@.len() == self.errors@.len(),
                other@.len() == other.errors@.len(),
                i <= n,
                forall|j: int| 0 <= j < i ==> self@[j] == other@[j],
            decreases n - i,
        {
            if !same_text(self.errors[i].as_str(), other.errors[i].as_str()) {
                assert(self@[i as int] != other@[i as int]);
                return false;
            }
            i = i + 1;
        }
        assert(self@ =~= other@);
        true
    }
}

impl PartialEqSpecImpl for ValidationError {
    open spec fn obeys_eq_spec() -> bool {
        true
    }

    open spec fn eq_spec(&self, other: &ValidationError) -> bool {
        self@ == other@
    }
}

} // verus!
