use vstd::prelude::*;
use vstd::string::StringExecFns;

use crate::config_store::Config;
use crate::event::{Event, MonthNumber, OutputPathInfo, Year};
use crate::source::Source;
use crate::strings::{intToString, opt_text, pushChar, spec_dec_int, spec_two_digits, twoDigits};

verus! {

/// The derived output directory when the prefix is known:
/// `<prefix>/<year>/<month, two digits>`.
pub open spec fn spec_full_path(prefix: Seq<char>, year: int, month: int) -> Seq<char> {
    prefix + seq!['/'] + spec_dec_int(year) + seq!['/'] + spec_two_digits(month)
}

/// The derived suffix while no prefix is chosen yet:
/// `<year>/<month, two digits>`.
pub open spec fn spec_partial_path(year: int, month: int) -> Seq<char> {
    spec_dec_int(year) + seq!['/'] + spec_two_digits(month)
}

/// Derives the output directory path from the chosen folder prefix and the
/// selected month and year, and announces every change.  It never
/// announces a full path before a prefix exists; until then it announces
/// the partial suffix only.
pub struct OutputPathStore {
    path: Option<String>,
    pathPrefix: Option<String>,
    year: Year,
    month: MonthNumber,
}

impl OutputPathStore {
    /// The derived path, present exactly while a prefix is known.
    pub closed spec fn spec_path(self) -> Option<Seq<char>> {
        opt_text(self.path)
    }

    /// The chosen folder prefix, if any yet.
    pub closed spec fn spec_prefix(self) -> Option<Seq<char>> {
        opt_text(self.pathPrefix)
    }

    /// The selected year.
    pub closed spec fn spec_year(self) -> int {
        self.year as int
    }

    /// The selected month.
    pub closed spec fn spec_month(self) -> int {
        self.month as int
    }

    /// The store's invariant: the month is a calendar month, and the
    /// derived path exists exactly while a prefix does, with exactly the
    /// derived text.
    pub open spec fn wf(self) -> bool {
        &&& 1 <= self.spec_month() <= 12
        &&& match self.spec_prefix() {
            Some(prefix) => self.spec_path() == Some(
                spec_full_path(prefix, self.spec_year(), self.spec_month()),
            ),
            None => self.spec_path() is None,
        }
    }

    /// A store over the saved prefix (if any) and the current date.
    pub fn new(config: &Config, year: Year, month: MonthNumber) -> (r: OutputPathStore)
        requires
            1 <= month <= 12,
        ensures
            r.wf(),
            r.spec_prefix() == opt_text(config.outputPathPrefix),
            r.spec_year() == year as int,
            r.spec_month() == month as int,
    {
        match &config.outputPathPrefix {
            Some(prefix) => {
                let path = makeFullPath(prefix, year, month);
                OutputPathStore {
                    path: Some(path),
                    pathPrefix: Some(prefix.clone()),
                    year,
                    month,
                }
            },
            None => OutputPathStore { path: None, pathPrefix: None, year, month },
        }
    }

    /// The derived path, present exactly while a prefix is known.
    pub fn getPath(&self) -> (r: &Option<String>)
        ensures
            opt_text(*r) == self.spec_path(),
    {
        &self.path
    }

    /// A folder was chosen.  Choosing the prefix already in effect is a
    /// guarded no-op; a new prefix is stored and the recomputed full path
    /// announced.
    pub fn onFolderChosen(&mut self, newPathPrefix: &str) -> (r: Option<(Source, Event)>)
        requires
            old(self).wf(),
        ensures
            final(self).wf(),
            final(self).spec_year() == old(self).spec_year(),
            final(self).spec_month() == old(self).spec_month(),
            match r {
                None => {
                    &&& old(self).spec_prefix() == Some(newPathPrefix@)
                    &&& final(self).spec_prefix() == old(self).spec_prefix()
                    &&& final(self).spec_path() == old(self).spec_path()
                },
                Some(emitted) => {
                    &&& old(self).spec_prefix() != Some(newPathPrefix@)
                    &&& final(self).spec_prefix() == Some(newPathPrefix@)
                    &&& is_update_event(*final(self), emitted)
                },
            },
    {
        match &self.pathPrefix {
            Some(pathPrefix) => {
                let newOwned = newPathPrefix.to_owned();
                if *pathPrefix == newOwned {
                    return None;
                }
            },
            None => {},
        }
        self.pathPrefix = Some(newPathPrefix.to_owned());
        Some(self.updatePath())
    }

    /// The month selection changed.  The same month is a guarded no-op;
    /// a new one is stored and the recomputed path announced.
    pub fn onMonthChanged(&mut self, newMonth: MonthNumber) -> (r: Option<(Source, Event)>)
        requires
            old(self).wf(),
            1 <= newMonth <= 12,
        ensures
            final(self).wf(),
            final(self).spec_prefix() == old(self).spec_prefix(),
            final(self).spec_year() == old(self).spec_year(),
            match r {
                None => old(self).spec_month() == newMonth as int && final(self).spec_month()
                    == old(self).spec_month() && final(self).spec_path() == old(self).spec_path(),
                Some(emitted) => {
                    &&& old(self).spec_month() != newMonth as int
                    &&& final(self).spec_month() == newMonth as int
                    &&& is_update_event(*final(self), emitted)
                },
            },
    {
        if self.month == newMonth {
            return None;
        }
        self.month = newMonth;
        Some(self.updatePath())
    }

    /// The year selection changed.  The same year is a guarded no-op;
    /// a new one is stored and the recomputed path announced.
    pub fn onYearChanged(&mut self, newYear: Year) -> (r: Option<(Source, Event)>)
        requires
            old(self).wf(),
        ensures
            final(self).wf(),
            final(self).spec_prefix() == old(self).spec_prefix(),
            final(self).spec_month() == old(self).spec_month(),
            match r {
                None => old(self).spec_year() == newYear as int && final(self).spec_year() == old(
                    self,
                ).spec_year() && final(self).spec_path() == old(self).spec_path(),
                Some(emitted) => {
                    &&& old(self).spec_year() != newYear as int
                    &&& final(self).spec_year() == newYear as int
                    &&& is_update_event(*final(self), emitted)
                },
            },
    {
        if self.year == newYear {
            return None;
        }
        self.year = newYear;
        Some(self.updatePath())
    }

    /// Recomputes the derived path and builds the one event announcing it:
    /// the full path when a prefix is known, else the partial suffix.
    fn updatePath(&mut self) -> (r: (Source, Event))
        requires
            1 <= old(self).spec_month() <= 12,
            old(self).spec_prefix() is None ==> old(self).spec_path() is None,
        ensures
            final(self).wf(),
            final(self).spec_prefix() == old(self).spec_prefix(),
            final(self).spec_year() == old(self).spec_year(),
            final(self).spec_month() == old(self).spec_month(),
            is_update_event(*final(self), r),
            old(self).spec_prefix() is None ==> final(self).spec_path() == old(self).spec_path(),
    {
        match &self.pathPrefix {
            Some(pathPrefix) => {
                let path = makeFullPath(pathPrefix, self.year, self.month);
                let prefix = pathPrefix.clone();
                self.path = Some(path.clone());
                (
                    Source::OutputPathStore,
                    Event::OutputPathChanged(OutputPathInfo { full: path, prefix }),
                )
            },
            None => {
                let mut path = intToString(self.year);
                pushChar(&mut path, '/');
                let monthText = self.formatMonth();
                path.append(monthText.as_str());
                proof {
                    assert(path@ =~= spec_partial_path(self.spec_year(), self.spec_month()));
                }
                (Source::OutputPathStore, Event::PartialOutputPathChanged(path))
            },
        }
    }

    /// The selected month as two digits.
    fn formatMonth(&self) -> (r: String)
        requires
            1 <= self.spec_month() <= 12,
        ensures
            r@ == spec_two_digits(self.spec_month()),
    {
        twoDigits(self.month)
    }
}

/// The one event a recomputation announces, given the state it left
/// behind: the full path and its prefix while a prefix is known, else the
/// partial suffix.
pub open spec fn is_update_event(store: OutputPathStore, e: (Source, Event)) -> bool {
    &&& e.0 == Source::OutputPathStore
    &&& match store.spec_prefix() {
        Some(prefix) => e.1 matches Event::OutputPathChanged(info) && info.full@
            == spec_full_path(prefix, store.spec_year(), store.spec_month()) && info.prefix@
            == prefix,
        None => e.1 matches Event::PartialOutputPathChanged(p) && p@ == spec_partial_path(
            store.spec_year(),
            store.spec_month(),
        ),
    }
}

/// Builds the full path `<prefix>/<year>/<month, two digits>`.
fn makeFullPath(prefix: &String, year: Year, month: MonthNumber) -> (r: String)
    requires
        1 <= month <= 12,
    ensures
        r@ == spec_full_path(prefix@, year as int, month as int),
{
    let mut path = prefix.clone();
    pushChar(&mut path, '/');
    let yearText = intToString(year);
    path.append(yearText.as_str());
    pushChar(&mut path, '/');
    let monthText = twoDigits(month);
    path.append(monthText.as_str());
    proof {
        assert(path@ =~= spec_full_path(prefix@, year as int, month as int));
    }
    path
}

} // verus!
