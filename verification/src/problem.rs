//! Faults reported across components: fatal ones halt the normal flow,
//! warnings become toasts.

use crate::commands::ScreenToast;
use crate::commands::ScreenToastView;
use crate::error::GamepieError;
use vstd::prelude::*;

verus! {

#[derive(Debug)]
pub enum Problem {
    Fatal(GamepieError),
    Warn(ScreenToast),
}

/// What a problem says.
pub enum ProblemView {
    Fatal(GamepieError),
    Warn(ScreenToastView),
}

impl View for Problem {
    type V = ProblemView;

    open spec fn view(&self) -> ProblemView {
        match self {
            Problem::Fatal(e) => ProblemView::Fatal(*e),
            Problem::Warn(t) => ProblemView::Warn(t@),
        }
    }
}

impl Problem {
    pub fn fatal(e: GamepieError) -> (p: Problem)
        ensures
            p@ == ProblemView::Fatal(e),
    {
        Problem::Fatal(e)
    }

    pub fn warn(s: ScreenToast) -> (p: Problem)
        ensures
            p@ == ProblemView::Warn(s@),
    {
        Problem::Warn(s)
    }
}

} // verus!
