//! Dispatch: turns a plan into outcomes. A dry run records every command. A
//! live run hands each issuable command, in order and one at a time, to the
//! execution collaborator and stops at the first failure it reports.

use vstd::prelude::*;
use crate::gate::ExecutionMode;
use crate::plan::{views_of, CommandIntent, CommandView, PlannedCommand};

verus! {

/// What became of one planned command.
#[derive(Debug, PartialEq, Eq)]
pub enum DispatchOutcome {
    /// Recorded only, never issued.
    Recorded(PlannedCommand),
    /// Issued by the execution collaborator.
    Executed(PlannedCommand),
}

/// The collaborator failed to issue a command; later commands were not issued.
#[derive(Debug, PartialEq, Eq)]
pub struct DispatchFailure {
    pub ordinal: usize,
    pub command: String,
    pub reason: String,
}

/// Whether `c` is handed to the collaborator in `mode`. Secure-erase notices
/// are never issued.
pub open spec fn issues(c: CommandView, mode: ExecutionMode) -> bool {
    mode == ExecutionMode::Live && !(c.intent is SecureEraseNotice)
}

/// `o` is the outcome owed to the command `c` in `mode`.
pub open spec fn outcome_fits(o: DispatchOutcome, c: CommandView, mode: ExecutionMode) -> bool {
    match o {
        DispatchOutcome::Recorded(x) => x@ == c && !issues(c, mode),
        DispatchOutcome::Executed(x) => x@ == c && issues(c, mode),
    }
}

/// The first position from `k` on whose command is issued in `mode`, or the
/// length of `cmds` if there is none.
pub open spec fn next_issued(cmds: Seq<CommandView>, mode: ExecutionMode, k: int) -> int
    decreases cmds.len() - k,
{
    if k >= cmds.len() || k < 0 {
        cmds.len() as int
    } else if issues(cmds[k], mode) {
        k
    } else {
        next_issued(cmds, mode, k + 1)
    }
}

proof fn lemma_next_issued_bounds(cmds: Seq<CommandView>, mode: ExecutionMode, k: int)
    requires
        0 <= k <= cmds.len(),
    ensures
        k <= next_issued(cmds, mode, k) <= cmds.len(),
    decreases cmds.len() - k,
{
    if k < cmds.len() && !issues(cmds[k], mode) {
        lemma_next_issued_bounds(cmds, mode, k + 1);
    }
}

/// In a dry run no command is issued.
pub proof fn lemma_dry_issues_nothing(cmds: Seq<CommandView>, k: int)
    requires
        0 <= k <= cmds.len(),
    ensures
        next_issued(cmds, ExecutionMode::Dry, k) == cmds.len(),
    decreases cmds.len() - k,
{
    if k < cmds.len() {
        lemma_dry_issues_nothing(cmds, k + 1);
    }
}

/// A dispatch in progress.
pub struct Dispatcher {
    commands: Vec<PlannedCommand>,
    mode: ExecutionMode,
    outcomes: Vec<DispatchOutcome>,
    failure: Option<DispatchFailure>,
}

fn copy_command(c: &PlannedCommand) -> (r: PlannedCommand)
    ensures
        r@ == c@,
{
    PlannedCommand { text: c.text.clone(), ordinal: c.ordinal, of: c.of, intent: c.intent }
}

fn issued_in(c: &PlannedCommand, mode: ExecutionMode) -> (r: bool)
    ensures
        r == issues(c@, mode),
{
    match mode {
        ExecutionMode::Dry => false,
        ExecutionMode::Live => !matches!(c.intent, CommandIntent::SecureEraseNotice),
    }
}

impl Dispatcher {
    /// The plan being dispatched.
    pub closed spec fn planned(&self) -> Seq<CommandView> {
        views_of(self.commands@)
    }

    pub closed spec fn mode_of(&self) -> ExecutionMode {
        self.mode
    }

    /// The outcomes so far, in planning order.
    pub closed spec fn done(&self) -> Seq<DispatchOutcome> {
        self.outcomes@
    }

    pub closed spec fn failed(&self) -> Option<DispatchFailure> {
        self.failure
    }

    /// Each outcome so far fits its command; without a failure, the next
    /// command, if any, is one to issue; a failure stands at a command.
    pub open spec fn wf(&self) -> bool {
        &&& self.done().len() <= self.planned().len()
        &&& forall|i: int|
            0 <= i < self.done().len() ==> outcome_fits(
                #[trigger] self.done()[i],
                self.planned()[i],
                self.mode_of(),
            )
        &&& self.failed() is None ==> (self.done().len() == self.planned().len() || issues(
            self.planned()[self.done().len() as int],
            self.mode_of(),
        ))
        &&& self.failed() is Some ==> self.done().len() < self.planned().len()
    }

    pub open spec fn finished(&self) -> bool {
        self.failed() is Some || self.done().len() == self.planned().len()
    }

    /// Records commands that are not issued, up to the next one that is.
    fn settle(&mut self)
        requires
            old(self).failed() is None,
            old(self).done().len() <= old(self).planned().len(),
            forall|i: int|
                0 <= i < old(self).done().len() ==> outcome_fits(
                    #[trigger] old(self).done()[i],
                    old(self).planned()[i],
                    old(self).mode_of(),
                ),
        ensures
            final(self).wf(),
            final(self).planned() == old(self).planned(),
            final(self).mode_of() == old(self).mode_of(),
            final(self).failed() is None,
            final(self).done().len() == next_issued(
                old(self).planned(),
                old(self).mode_of(),
                old(self).done().len() as int,
            ),
            final(self).done().take(old(self).done().len() as int) == old(self).done(),
    {
        let ghost start = self.outcomes@.len() as int;
        let ghost first = self.outcomes@;
        while self.outcomes.len() < self.commands.len() && !issued_in(
            &self.commands[self.outcomes.len()],
            self.mode,
        )
            invariant
                self.failed() is None,
                self.planned() == old(self).planned(),
                self.mode_of() == old(self).mode_of(),
                0 <= start <= self.done().len() <= self.planned().len(),
                self.commands@.len() == self.planned().len(),
                forall|i: int|
                    0 <= i < self.done().len() ==> outcome_fits(
                        #[trigger] self.done()[i],
                        self.planned()[i],
                        self.mode_of(),
                    ),
                next_issued(self.planned(), self.mode_of(), start) == next_issued(
                    self.planned(),
                    self.mode_of(),
                    self.done().len() as int,
                ),
                self.done().take(start) == first,
            decreases self.planned().len() - self.done().len(),
        {
            let k = self.outcomes.len();
            let c = copy_command(&self.commands[k]);
            assert(self.commands@[k as int]@ == self.planned()[k as int]);
            let ghost prev = self.outcomes@;
            self.outcomes.push(DispatchOutcome::Recorded(c));
            assert(self.outcomes@.take(start) =~= prev.take(start));
        }
    }

    /// Starts dispatching `commands` in `mode`; the commands before the first
    /// one to issue are recorded at once (in a dry run, all of them).
    pub fn new(commands: Vec<PlannedCommand>, mode: ExecutionMode) -> (r: Dispatcher)
        ensures
            r.wf(),
            r.planned() == views_of(commands@),
            r.mode_of() == mode,
            r.failed() is None,
            r.done().len() == next_issued(views_of(commands@), mode, 0),
            mode == ExecutionMode::Dry ==> r.finished(),
    {
        let mut d = Dispatcher { commands, mode, outcomes: Vec::new(), failure: None };
        d.settle();
        proof {
            if mode == ExecutionMode::Dry {
                lemma_dry_issues_nothing(views_of(commands@), 0);
            }
        }
        d
    }

    pub fn is_finished(&self) -> (r: bool)
        requires
            self.wf(),
        ensures
            r == self.finished(),
    {
        self.failure.is_some() || self.outcomes.len() == self.commands.len()
    }

    /// The command the collaborator must issue next, if any.
    pub fn pending(&self) -> (r: Option<&PlannedCommand>)
        requires
            self.wf(),
        ensures
            r is None <==> self.finished(),
            r is Some ==> r->0@ == self.planned()[self.done().len() as int] && issues(
                r->0@,
                self.mode_of(),
            ),
    {
        if self.failure.is_some() || self.outcomes.len() >= self.commands.len() {
            None
        } else {
            Some(&self.commands[self.outcomes.len()])
        }
    }

    /// Takes the collaborator's report on the pending command. On success the
    /// command is executed and the commands up to the next one to issue are
    /// recorded; on failure dispatch stops there.
    pub fn report(&mut self, issued: Result<(), String>)
        requires
            old(self).wf(),
            !old(self).finished(),
        ensures
            final(self).wf(),
            final(self).planned() == old(self).planned(),
            final(self).mode_of() == old(self).mode_of(),
            issued is Ok ==> final(self).failed() is None && final(self).done().len()
                == next_issued(old(self).planned(), old(self).mode_of(), old(self).done().len() + 1int)
                && final(self).done().take(old(self).done().len() as int) == old(self).done(),
            issued is Err ==> final(self).done() == old(self).done() && final(self).failed() is Some
                && final(self).failed()->0.ordinal == old(self).planned()[old(self).done().len() as int].ordinal
                && final(self).failed()->0.command@ == old(self).planned()[old(self).done().len() as int].text
                && final(self).failed()->0.reason@ == issued->Err_0@,
    {
        let k = self.outcomes.len();
        assert(self.commands@[k as int]@ == self.planned()[k as int]);
        match issued {
            Ok(()) => {
                let ghost before = self.outcomes@;
                let c = copy_command(&self.commands[k]);
                self.outcomes.push(DispatchOutcome::Executed(c));
                self.settle();
                proof {
                    lemma_next_issued_bounds(self.planned(), self.mode, k + 1);
                }
                assert(self.done().take(k + 1) == before.push(DispatchOutcome::Executed(c)));
                assert(self.done().take(k as int) =~= self.done().take(k + 1).take(k as int));
            },
            Err(reason) => {
                let c = &self.commands[k];
                self.failure = Some(
                    DispatchFailure { ordinal: c.ordinal, command: c.text.clone(), reason },
                );
            },
        }
    }

    /// The outcomes in planning order, or the failure that stopped dispatch.
    pub fn finish(self) -> (r: Result<Vec<DispatchOutcome>, DispatchFailure>)
        requires
            self.wf(),
            self.finished(),
        ensures
            self.failed() is None ==> r is Ok && r->Ok_0@ == self.done() && r->Ok_0@.len()
                == self.planned().len(),
            self.failed() is Some ==> r == Err::<Vec<DispatchOutcome>, DispatchFailure>(
                self.failed()->0,
            ),
    {
        match self.failure {
            Some(f) => Err(f),
            None => Ok(self.outcomes),
        }
    }
}

/// The log line for an outcome: `[EXEC]` for an issued command, `[NOTE]` for
/// a secure-erase notice, `[DRY-RUN]` for any other recorded command.
pub open spec fn line_of(o: DispatchOutcome) -> Seq<char> {
    match o {
        DispatchOutcome::Executed(c) => "[EXEC] "@ + c.text@,
        DispatchOutcome::Recorded(c) => if c.intent is SecureEraseNotice {
            "[NOTE] "@ + c.text@
        } else {
            "[DRY-RUN] "@ + c.text@
        },
    }
}

pub fn outcome_line(o: &DispatchOutcome) -> (r: String)
    ensures
        r@ == line_of(*o),
{
    match o {
        DispatchOutcome::Executed(c) => String::from_str("[EXEC] ").concat(c.text.as_str()),
        DispatchOutcome::Recorded(c) => if matches!(c.intent, CommandIntent::SecureEraseNotice) {
            String::from_str("[NOTE] ").concat(c.text.as_str())
        } else {
            String::from_str("[DRY-RUN] ").concat(c.text.as_str())
        },
    }
}

} // verus!
