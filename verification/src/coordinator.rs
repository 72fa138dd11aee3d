//! Brightness across all the displays under control.
//!
//! A `DisplaySet` is built once, from the displays that were opened and what
//! their first brightness read came to, and holds the brightness last known
//! of each display from then on. It decides; the caller does the device I/O.
//! `set_one` and `set_all` update what is known and return the reports to
//! write, and `failed_writes` says which writes to report as failed. What is
//! known follows what was asked for, not what the devices confirmed: a write
//! that fails leaves the new percentage in place.

use vstd::prelude::*;
use crate::constants::{INDIVIDUAL_SLOTS, MAX_PERCENT, REPORT_SIZE};
use crate::convert::{clamp, clamp_percent};
use crate::discovery::DeviceDescriptor;
use crate::error::DisplayError;
use crate::session::{
    set_brightness_percent, spec_display_name, spec_percent_report, spec_serial_label,
    DeviceSession,
};

verus! {

/// A display that was opened, with what its first brightness read came to.
#[derive(Debug)]
pub struct DisplayProbe {
    /// The device that was opened.
    pub descriptor: DeviceDescriptor,
    /// The brightness that was read from it, in percent, or why none was.
    pub reading: Result<u8, DisplayError>,
}

/// How one display is addressed for a change that leaves the others alone.
#[derive(Debug, Clone, PartialEq, Eq)]
pub enum DisplayAddress {
    /// By the serial number that its session answers to.
    Serial(String),
    /// By its place among the first displays in display order, counted from
    /// zero.
    Slot(usize),
}

/// A feature report to write to one display.
#[derive(Debug, Clone, Copy, PartialEq, Eq)]
pub struct WriteCommand {
    /// Place of the display in the display order, counted from zero.
    pub index: usize,
    /// The report to hand to the display's transport.
    pub report: [u8; REPORT_SIZE],
}

/// A write that failed, to be reported on its own.
#[derive(Debug, Clone, Copy, PartialEq, Eq, Structural)]
pub struct WriteFailure {
    /// Place of the display in the display order, counted from zero.
    pub index: usize,
    /// Why the write failed.
    pub error: DisplayError,
}

/// What the interactive surface shows of one display.
#[derive(Debug, Clone, PartialEq, Eq)]
pub struct DisplaySlot {
    /// The name the display goes by.
    pub name: String,
    /// The serial number the display is addressed by.
    pub serial: String,
    /// The brightness last known of the display, in percent.
    pub percent: u8,
}

/// The mathematical content of a `DisplaySet`.
pub struct DisplaySetView {
    /// The sessions in display order.
    pub sessions: Seq<DeviceSession>,
    /// For each session, the brightness last known of its display, in
    /// percent.
    pub last_percents: Seq<u8>,
    /// The brightness last known of all displays together, in percent.
    pub master_percent: u8,
}

/// The sessions of all displays under control, in display order, with the
/// brightness last known of each.
pub struct DisplaySet {
    sessions: Vec<DeviceSession>,
    last_percents: Vec<u8>,
    master_percent: u8,
}

impl View for DisplaySet {
    type V = DisplaySetView;

    closed spec fn view(&self) -> DisplaySetView {
        DisplaySetView {
            sessions: self.sessions@,
            last_percents: self.last_percents@,
            master_percent: self.master_percent,
        }
    }
}

impl DisplaySetView {
    /// What holds of every display set: it has a display, a last known
    /// brightness for each, and the sessions are numbered in display order
    /// from one.
    pub open spec fn well_formed(self) -> bool {
        &&& self.sessions.len() > 0
        &&& self.sessions.len() == self.last_percents.len()
        &&& forall|i: int|
            0 <= i < self.sessions.len() ==> (#[trigger] self.sessions[i]).number == i + 1
    }
}

/// The brightness that a display starts out with: what was read from it, or
/// `fallback` where the read failed.
pub open spec fn spec_initial_percent(reading: Result<u8, DisplayError>, fallback: u8) -> u8 {
    match reading {
        Ok(percent) => percent,
        Err(_) => fallback,
    }
}

/// What building a display set from `probes` comes to. Without a display
/// there is nothing to control. The first display's reading is the one that
/// must be there: it becomes the brightness of all displays together, and
/// stands in for every later display whose own read failed.
pub open spec fn spec_new(probes: Seq<DisplayProbe>) -> Result<DisplaySetView, DisplayError> {
    if probes.len() == 0 {
        Err(DisplayError::NoDevice)
    } else {
        match probes[0].reading {
            Err(error) => Err(error),
            Ok(first) => Ok(
                DisplaySetView {
                    sessions: Seq::new(
                        probes.len(),
                        |i: int|
                            DeviceSession {
                                descriptor: probes[i].descriptor,
                                number: (i + 1) as usize,
                            },
                    ),
                    last_percents: Seq::new(
                        probes.len(),
                        |i: int| spec_initial_percent(probes[i].reading, first),
                    ),
                    master_percent: first,
                },
            ),
        }
    }
}

/// Whether `address` addresses the session at `index`. A serial number
/// addresses the session that answers to it, and the latest in display order
/// where several do; a slot addresses the session at that place, as far as
/// there are slots.
pub open spec fn spec_locates(view: DisplaySetView, address: DisplayAddress, index: int) -> bool {
    &&& 0 <= index < view.sessions.len()
    &&& match address {
        DisplayAddress::Serial(serial) => {
            &&& spec_serial_label(view.sessions[index].descriptor) == serial@
            &&& forall|later: int|
                index < later < view.sessions.len() ==> spec_serial_label(
                    (#[trigger] view.sessions[later]).descriptor,
                ) != serial@
        },
        DisplayAddress::Slot(slot) => index == slot && slot < INDIVIDUAL_SLOTS,
    }
}

/// The state after the brightness of the display at `index` was set to
/// `percent`: only what is known of that display has changed.
pub open spec fn spec_set_one(before: DisplaySetView, index: int, percent: int) -> DisplaySetView {
    DisplaySetView {
        last_percents: before.last_percents.update(
            index,
            clamp(percent, 0, MAX_PERCENT as int) as u8,
        ),
        ..before
    }
}

/// The state after the brightness of all displays was set to `percent`:
/// that percentage, pulled into the range from 0 to 100, is known of every
/// display and of all together.
pub open spec fn spec_set_all(before: DisplaySetView, percent: int) -> DisplaySetView {
    DisplaySetView {
        sessions: before.sessions,
        last_percents: Seq::new(
            before.last_percents.len(),
            |i: int| clamp(percent, 0, MAX_PERCENT as int) as u8,
        ),
        master_percent: clamp(percent, 0, MAX_PERCENT as int) as u8,
    }
}

/// The failures among the results of a run of writes, in the order of the
/// writes, each with the place of its write in the run.
pub open spec fn spec_failed_writes(results: Seq<Result<(), DisplayError>>) -> Seq<WriteFailure>
    decreases results.len(),
{
    if results.len() == 0 {
        Seq::empty()
    } else {
        let earlier = spec_failed_writes(results.drop_last());
        match results.last() {
            Ok(_) => earlier,
            Err(error) => earlier.push(
                WriteFailure { index: (results.len() - 1) as usize, error },
            ),
        }
    }
}

impl DisplaySet {
    #[verifier::type_invariant]
    spec fn type_invariant(&self) -> bool {
        self@.well_formed()
    }

    /// Builds the set from the displays that were opened, in display order,
    /// and what was read from each.
    ///
    /// Fails with `NoDevice` where there is no display, and with the first
    /// display's error where its read failed. A failed read of a later
    /// display does not fail the set: the display starts out with the first
    /// display's brightness.
    pub fn new(probes: Vec<DisplayProbe>) -> (built: Result<DisplaySet, DisplayError>)
        ensures
            match spec_new(probes@) {
                Ok(view) => built is Ok && built->Ok_0@ == view && view.well_formed(),
                Err(error) => built is Err && built->Err_0 == error,
            },
    {
        if probes.len() == 0 {
            return Err(DisplayError::NoDevice);
        }
        let first = match probes[0].reading {
            Ok(percent) => percent,
            Err(error) => {
                return Err(error);
            },
        };
        let ghost all = probes@;
        let mut sessions: Vec<DeviceSession> = Vec::new();
        let mut last_percents: Vec<u8> = Vec::new();
        for probe in it: probes
            invariant
                it.seq() == all,
                all.len() <= usize::MAX,
                sessions@.len() == it.index(),
                last_percents@.len() == it.index(),
                forall|k: int|
                    0 <= k < it.index() ==> #[trigger] sessions@[k] == (DeviceSession {
                        descriptor: all[k].descriptor,
                        number: (k + 1) as usize,
                    }),
                forall|k: int|
                    0 <= k < it.index() ==> #[trigger] last_percents@[k] == spec_initial_percent(
                        all[k].reading,
                        first,
                    ),
        {
            let number = sessions.len() + 1;
            let percent = match probe.reading {
                Ok(percent) => percent,
                Err(_) => first,
            };
            sessions.push(DeviceSession { descriptor: probe.descriptor, number });
            last_percents.push(percent);
        }
        let built = DisplaySet { sessions, last_percents, master_percent: first };
        proof {
            let view = spec_new(all)->Ok_0;
            assert(built@.sessions =~= view.sessions);
            assert(built@.last_percents =~= view.last_percents);
        }
        Ok(built)
    }

    /// How many displays are under control. There is always at least one.
    pub fn display_count(&self) -> (count: usize)
        ensures
            count == self@.sessions.len(),
            count > 0,
            self@.well_formed(),
    {
        proof {
            use_type_invariant(self);
        }
        self.sessions.len()
    }

    /// The brightness last known of all displays together, in percent: what
    /// `set_all` was last called with, and before that the first display's
    /// first reading.
    pub fn master_percent(&self) -> (percent: u8)
        ensures
            percent == self@.master_percent,
    {
        self.master_percent
    }

    /// The session at `index` in display order, counted from zero.
    pub fn session(&self, index: usize) -> (session: Option<&DeviceSession>)
        ensures
            index < self@.sessions.len() ==> session == Some(&self@.sessions[index as int])
                && self@.sessions[index as int].number == index + 1,
            index >= self@.sessions.len() ==> session is None,
    {
        proof {
            use_type_invariant(self);
        }
        if index < self.sessions.len() {
            Some(&self.sessions[index])
        } else {
            None
        }
    }

    /// The brightness last known of the display at `index` in display order,
    /// counted from zero.
    pub fn last_percent(&self, index: usize) -> (percent: Option<u8>)
        ensures
            index < self@.sessions.len() ==> percent == Some(self@.last_percents[index as int]),
            index >= self@.sessions.len() ==> percent is None,
    {
        proof {
            use_type_invariant(self);
        }
        if index < self.last_percents.len() {
            Some(self.last_percents[index])
        } else {
            None
        }
    }

    /// What the interactive surface shows of the display in `slot`. Only the
    /// first `INDIVIDUAL_SLOTS` displays have a slot.
    pub fn slot(&self, slot: usize) -> (shown: Option<DisplaySlot>)
        ensures
            slot < INDIVIDUAL_SLOTS && slot < self@.sessions.len() ==> shown is Some && {
                let shown = shown->Some_0;
                &&& shown.name@ == spec_display_name((slot + 1) as nat)
                &&& shown.serial@ == spec_serial_label(self@.sessions[slot as int].descriptor)
                &&& shown.percent == self@.last_percents[slot as int]
            },
            slot >= INDIVIDUAL_SLOTS || slot >= self@.sessions.len() ==> shown is None,
    {
        proof {
            use_type_invariant(self);
        }
        if slot < INDIVIDUAL_SLOTS && slot < self.sessions.len() {
            let session = &self.sessions[slot];
            Some(
                DisplaySlot {
                    name: session.name(),
                    serial: session.serial(),
                    percent: self.last_percents[slot],
                },
            )
        } else {
            None
        }
    }

    /// Finds the session that `address` addresses, if there is one.
    pub fn locate(&self, address: &DisplayAddress) -> (found: Option<usize>)
        ensures
            match found {
                Some(index) => spec_locates(self@, *address, index as int),
                None => forall|index: int| !spec_locates(self@, *address, index),
            },
    {
        match address {
            DisplayAddress::Slot(slot) => {
                if *slot < INDIVIDUAL_SLOTS && *slot < self.sessions.len() {
                    Some(*slot)
                } else {
                    None
                }
            },
            DisplayAddress::Serial(serial) => {
                let mut found: Option<usize> = None;
                let count = self.sessions.len();
                let mut i: usize = 0;
                while i < count
                    invariant
                        0 <= i <= count,
                        count == self.sessions@.len(),
                        match found {
                            Some(index) => {
                                &&& index < i
                                &&& spec_serial_label(self.sessions@[index as int].descriptor)
                                    == serial@
                                &&& forall|later: int|
                                    index < later < i ==> spec_serial_label(
                                        (#[trigger] self.sessions@[later]).descriptor,
                                    ) != serial@
                            },
                            None => forall|earlier: int|
                                0 <= earlier < i ==> spec_serial_label(
                                    (#[trigger] self.sessions@[earlier]).descriptor,
                                ) != serial@,
                        },
                    decreases count - i,
                {
                    if self.sessions[i].answers_to(serial.as_str()) {
                        found = Some(i);
                    }
                    i += 1;
                }
                found
            },
        }
    }

    /// Sets the brightness of one display to `percent`.
    ///
    /// Where `address` addresses a display, returns the report to write to
    /// it, and from now on `percent`, pulled into the range from 0 to 100,
    /// is the brightness known of that display, whether or not the write
    /// succeeds. Nothing else changes. Where it addresses none, returns
    /// `None` and changes nothing.
    pub fn set_one(&mut self, address: &DisplayAddress, percent: i32) -> (command: Option<
        WriteCommand,
    >)
        ensures
            match command {
                Some(command) => {
                    &&& spec_locates(old(self)@, *address, command.index as int)
                    &&& command.report@ == spec_percent_report(percent as int)
                    &&& final(self)@ == spec_set_one(
                        old(self)@,
                        command.index as int,
                        percent as int,
                    )
                },
                None => {
                    &&& forall|index: int| !spec_locates(old(self)@, *address, index)
                    &&& final(self)@ == old(self)@
                },
            },
    {
        proof {
            use_type_invariant(&*self);
        }
        match self.locate(address) {
            Some(index) => {
                self.last_percents[index] = clamp_percent(percent);
                Some(WriteCommand { index, report: set_brightness_percent(percent) })
            },
            None => None,
        }
    }

    /// Sets the brightness of all displays to `percent`.
    ///
    /// Returns one report to write for each display, in display order. The
    /// caller writes every one of them, whatever becomes of the others. From
    /// now on `percent`, pulled into the range from 0 to 100, is the
    /// brightness known of every display and of all together, whether or not
    /// the writes succeed.
    pub fn set_all(&mut self, percent: i32) -> (commands: Vec<WriteCommand>)
        ensures
            final(self)@ == spec_set_all(old(self)@, percent as int),
            commands@.len() == old(self)@.sessions.len(),
            forall|i: int|
                0 <= i < commands@.len() ==> (#[trigger] commands@[i]).index == i
                    && commands@[i].report@ == spec_percent_report(percent as int),
    {
        proof {
            use_type_invariant(&*self);
        }
        let shown = clamp_percent(percent);
        let report = set_brightness_percent(percent);
        let mut commands: Vec<WriteCommand> = Vec::new();
        let count = self.sessions.len();
        let mut i: usize = 0;
        while i < count
            invariant
                0 <= i <= count,
                count == self.sessions@.len(),
                count == self.last_percents@.len(),
                self.sessions@ == old(self).sessions@,
                self.master_percent == old(self).master_percent,
                commands@.len() == i,
                forall|k: int|
                    0 <= k < i ==> (#[trigger] commands@[k]).index == k && commands@[k].report
                        == report,
                forall|k: int| 0 <= k < i ==> #[trigger] self.last_percents@[k] == shown,
            decreases count - i,
        {
            proof {
                use_type_invariant(&*self);
            }
            self.last_percents[i] = shown;
            commands.push(WriteCommand { index: i, report });
            i += 1;
        }
        self.master_percent = shown;
        proof {
            assert(self@.last_percents =~= spec_set_all(old(self)@, percent as int).last_percents);
        }
        commands
    }
}

/// Picks the failures out of the results of a run of writes, where
/// `results[i]` is what became of the write at place `i`. Every failure is
/// kept, in the order of the writes, so that each can be reported on its own.
pub fn failed_writes(results: &Vec<Result<(), DisplayError>>) -> (failures: Vec<WriteFailure>)
    ensures
        failures@ == spec_failed_writes(results@),
{
    let mut failures: Vec<WriteFailure> = Vec::new();
    let mut i: usize = 0;
    while i < results.len()
        invariant
            0 <= i <= results@.len(),
            failures@ == spec_failed_writes(results@.take(i as int)),
        decreases results@.len() - i,
    {
        proof {
            assert(results@.take(i + 1).drop_last() =~= results@.take(i as int));
        }
        match results[i] {
            Ok(_) => {},
            Err(error) => {
                failures.push(WriteFailure { index: i, error });
            },
        }
        i += 1;
    }
    proof {
        assert(results@.take(results@.len() as int) =~= results@);
    }
    failures
}

/// An address addresses at most one session.
pub proof fn lemma_locates_at_most_one(
    view: DisplaySetView,
    address: DisplayAddress,
    first: int,
    second: int,
)
    requires
        spec_locates(view, address, first),
        spec_locates(view, address, second),
    ensures
        first == second,
{
}

/// A slot addresses the session at its place exactly if it is one of the
/// first `INDIVIDUAL_SLOTS` places and there is a session there.
pub proof fn lemma_slot_locates(view: DisplaySetView, slot: usize, index: int)
    ensures
        spec_locates(view, DisplayAddress::Slot(slot), index) <==> index == slot && slot
            < INDIVIDUAL_SLOTS && slot < view.sessions.len(),
{
}

/// A serial number that no session answers to addresses none.
pub proof fn lemma_absent_serial_locates_none(view: DisplaySetView, serial: String, index: int)
    requires
        forall|i: int|
            0 <= i < view.sessions.len() ==> spec_serial_label(
                (#[trigger] view.sessions[i]).descriptor,
            ) != serial@,
    ensures
        !spec_locates(view, DisplayAddress::Serial(serial), index),
{
}

/// A display set that was built is well formed, holds one session for each
/// display that was opened, with its descriptor and in its place, and knows
/// of each display what was read from it.
pub proof fn lemma_new_keeps_readings(probes: Seq<DisplayProbe>, index: int)
    requires
        spec_new(probes) is Ok,
        0 <= index < probes.len(),
        probes.len() <= usize::MAX,
    ensures
        spec_new(probes)->Ok_0.well_formed(),
        spec_new(probes)->Ok_0.sessions.len() == probes.len(),
        spec_new(probes)->Ok_0.sessions[index].descriptor == probes[index].descriptor,
        probes[0].reading is Ok,
        spec_new(probes)->Ok_0.master_percent == probes[0].reading->Ok_0,
        probes[index].reading is Ok ==> spec_new(probes)->Ok_0.last_percents[index]
            == probes[index].reading->Ok_0,
        probes[index].reading is Err ==> spec_new(probes)->Ok_0.last_percents[index]
            == probes[0].reading->Ok_0,
{
}

/// Setting one display leaves the set well formed and touches nothing but
/// what is known of that display: the sessions, what is known of every other
/// display and what is known of all together stay as they were.
pub proof fn lemma_set_one_is_local(before: DisplaySetView, index: int, percent: int, other: int)
    requires
        before.well_formed(),
        0 <= index < before.sessions.len(),
        0 <= other < before.sessions.len(),
    ensures
        spec_set_one(before, index, percent).well_formed(),
        spec_set_one(before, index, percent).sessions == before.sessions,
        spec_set_one(before, index, percent).master_percent == before.master_percent,
        spec_set_one(before, index, percent).last_percents[index] == clamp(
            percent,
            0,
            MAX_PERCENT as int,
        ),
        other != index ==> spec_set_one(before, index, percent).last_percents[other]
            == before.last_percents[other],
{
}

/// Setting all displays to a percentage from 0 to 100 leaves the set well
/// formed with the same sessions, and makes that percentage the brightness
/// known of every display and of all together. No result of a write enters
/// into it.
pub proof fn lemma_set_all_reaches_every_display(before: DisplaySetView, percent: int, index: int)
    requires
        before.well_formed(),
        0 <= percent <= MAX_PERCENT,
        0 <= index < before.sessions.len(),
    ensures
        spec_set_all(before, percent).well_formed(),
        spec_set_all(before, percent).sessions == before.sessions,
        spec_set_all(before, percent).master_percent == percent,
        spec_set_all(before, percent).last_percents[index] == percent,
{
}

/// A run of writes has a failure at a place exactly if the write at that
/// place failed, and then with the error of that write.
pub proof fn lemma_failed_writes_contains(
    results: Seq<Result<(), DisplayError>>,
    failure: WriteFailure,
)
    requires
        results.len() <= usize::MAX,
    ensures
        spec_failed_writes(results).contains(failure) <==> failure.index < results.len()
            && results[failure.index as int] == Err::<(), DisplayError>(failure.error),
    decreases results.len(),
{
    if results.len() > 0 {
        let earlier = results.drop_last();
        lemma_failed_writes_contains(earlier, failure);
        let last = (results.len() - 1) as usize;
        match results.last() {
            Ok(_) => {},
            Err(error) => {
                let added = WriteFailure { index: last, error };
                let kept = spec_failed_writes(earlier);
                assert(kept.push(added).last() == added);
                assert(forall|k: int| 0 <= k < kept.len() ==> kept.push(added)[k] == kept[k]);
                if kept.push(added).contains(failure) {
                    let k = choose|k: int|
                        0 <= k < kept.push(added).len() && kept.push(added)[k] == failure;
                    if k < kept.len() {
                        assert(kept[k] == failure);
                    }
                }
                if kept.contains(failure) {
                    let k = choose|k: int| 0 <= k < kept.len() && kept[k] == failure;
                    assert(kept.push(added)[k] == failure);
                }
            },
        }
    }
}

/// The failures of a run of writes come in the order of the writes, and
/// there are no more of them than writes.
pub proof fn lemma_failed_writes_in_order(results: Seq<Result<(), DisplayError>>)
    requires
        results.len() <= usize::MAX,
    ensures
        spec_failed_writes(results).len() <= results.len(),
        forall|k: int|
            0 <= k < spec_failed_writes(results).len() ==> (#[trigger] spec_failed_writes(
                results,
            )[k]).index < results.len(),
        forall|j: int, k: int|
            0 <= j < k < spec_failed_writes(results).len() ==> (#[trigger] spec_failed_writes(
                results,
            )[j]).index < (#[trigger] spec_failed_writes(results)[k]).index,
    decreases results.len(),
{
    if results.len() > 0 {
        lemma_failed_writes_in_order(results.drop_last());
    }
}

/// Where every write of a run succeeded there is no failure to report.
pub proof fn lemma_no_failure_without_error(results: Seq<Result<(), DisplayError>>)
    requires
        forall|i: int| 0 <= i < results.len() ==> (#[trigger] results[i]) is Ok,
    ensures
        spec_failed_writes(results) == Seq::<WriteFailure>::empty(),
    decreases results.len(),
{
    if results.len() > 0 {
        lemma_no_failure_without_error(results.drop_last());
    }
}

} // verus!
