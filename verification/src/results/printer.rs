//! What is handed to the reporting of a run.

use crate::runner::error::ErrorView;
use crate::runner::{Error, RunEvent, RunEventView};
use vstd::prelude::*;

verus! {

/// One item to report.
#[derive(Debug, PartialEq, Eq)]
pub enum PrintItem {
    /// An event of a run.
    RunEvent(RunEvent),
    /// An error outside any run.
    RunError(Error),
}

/// What a `PrintItem` stands for in specifications.
pub enum PrintItemView {
    RunEvent(RunEventView),
    RunError(ErrorView),
}

impl View for PrintItem {
    type V = PrintItemView;

    open spec fn view(&self) -> PrintItemView {
        match self {
            PrintItem::RunEvent(event) => PrintItemView::RunEvent(event@),
            PrintItem::RunError(error) => PrintItemView::RunError(error@),
        }
    }
}

/// Reports items to whoever started the run.
pub trait Printer {
    /// Reports one item.
    fn print(&mut self, item: &PrintItem);
}

/// A printer together with the record of what it has been handed. The
/// printer is reached through `report` alone, so the record holds every
/// item that it was handed, in the order in which it was handed them.
pub struct Reporter<P> {
    printer: P,
    reported: Ghost<Seq<PrintItemView>>,
}

impl<P: Printer> Reporter<P> {
    /// The items that the printer has been handed so far, in order.
    pub closed spec fn reported(&self) -> Seq<PrintItemView> {
        self.reported@
    }

    /// The printer that the items are handed to.
    pub closed spec fn inner(&self) -> P {
        self.printer
    }

    /// A reporter for `printer`, which has been handed nothing yet.
    pub fn new(printer: P) -> (reporter: Reporter<P>)
        ensures
            reporter.reported() == Seq::<PrintItemView>::empty(),
            reporter.inner() == printer,
    {
        Reporter { printer, reported: Ghost(Seq::empty()) }
    }

    /// Hands `item` to the printer, and takes note of it.
    pub fn report(&mut self, item: &PrintItem)
        ensures
            final(self).reported() == old(self).reported().push(item@),
    {
        self.printer.print(item);
        self.reported = Ghost(self.reported@.push(item@));
    }

    /// The printer, to look at what it has done with the items.
    pub fn printer(&self) -> (printer: &P)
        ensures
            *printer == self.inner(),
    {
        &self.printer
    }

    /// Gives the printer back.
    pub fn into_printer(self) -> (printer: P)
        ensures
            printer == self.inner(),
    {
        self.printer
    }
}

} // verus!
