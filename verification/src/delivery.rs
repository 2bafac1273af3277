//! Delivery of one log event through the host's function tables, one step
//! at a time.
//!
//! The caller does what a step names and reports what it saw; `advance`
//! decides what comes next. The thread is attached to the host where it is
//! not yet, and detached again before the delivery ends. A failure never
//! leaves the delivery other than as the value it finishes with.

use vstd::prelude::*;
use vstd::string::StringExecFns;
use crate::callback::{host_call, host_call_of, HostCall, LogCallbackCtx};
use crate::status::{check_status, status_of, JniFailure};

verus! {

/// The functions of the host that a delivery calls.
#[derive(Clone, Copy, Debug, PartialEq, Eq, Structural)]
pub enum HostFunction {
    GetEnv,
    AttachCurrentThread,
    DetachCurrentThread,
    GetObjectClass,
    GetMethodID,
    NewStringUTF,
    CallVoidMethodA,
}

impl HostFunction {
    /// Whether the function stands in the table of the virtual machine; the
    /// others stand in the table of a thread's environment.
    pub open spec fn of_vm(self) -> bool {
        self == HostFunction::GetEnv || self == HostFunction::AttachCurrentThread || self
            == HostFunction::DetachCurrentThread
    }

    /// The name of the function, as a sequence of characters.
    pub open spec fn name_of(self) -> Seq<char> {
        match self {
            HostFunction::GetEnv => "GetEnv"@,
            HostFunction::AttachCurrentThread => "AttachCurrentThread"@,
            HostFunction::DetachCurrentThread => "DetachCurrentThread"@,
            HostFunction::GetObjectClass => "GetObjectClass"@,
            HostFunction::GetMethodID => "GetMethodID"@,
            HostFunction::NewStringUTF => "NewStringUTF"@,
            HostFunction::CallVoidMethodA => "CallVoidMethodA"@,
        }
    }

    /// The name under which the host's tables hold the function.
    pub fn name(self) -> (name: &'static str)
        ensures
            name@ == self.name_of(),
    {
        match self {
            HostFunction::GetEnv => "GetEnv",
            HostFunction::AttachCurrentThread => "AttachCurrentThread",
            HostFunction::DetachCurrentThread => "DetachCurrentThread",
            HostFunction::GetObjectClass => "GetObjectClass",
            HostFunction::GetMethodID => "GetMethodID",
            HostFunction::NewStringUTF => "NewStringUTF",
            HostFunction::CallVoidMethodA => "CallVoidMethodA",
        }
    }
}

/// What the caller is to do next.
#[derive(Clone, Copy, Debug, PartialEq, Eq, Structural)]
pub enum Step {
    /// Look the function up in its table and call it. `NewStringUTF` is
    /// called for the category and for the message.
    Call(HostFunction),
    /// Test whether the reference to the callback object is null.
    CheckCallback,
}

/// What the caller saw when it did a step.
#[derive(Clone, Copy, Debug, PartialEq, Eq, Structural)]
pub enum Observed {
    /// The table holds no such function.
    Missing,
    /// The function was called and returned this status. `GetEnv`,
    /// `AttachCurrentThread` and `DetachCurrentThread` answer so.
    Status(i32),
    /// The function was called. The functions of the environment's table
    /// answer so.
    Called,
    /// The reference to the callback object was tested.
    Callback { null: bool },
}

/// Why a delivery failed.
#[derive(Clone, Copy, Debug, PartialEq, Eq, Structural)]
pub enum DeliveryError {
    /// The host's table has no entry for a function that the delivery needs.
    Missing(HostFunction),
    /// A function of the host returned a status other than success.
    JniCall(JniFailure),
    /// The reference to the callback object is null.
    CallbackNull,
    /// What the caller reported is no answer to the step it was given.
    Unexpected,
}

impl DeliveryError {
    /// The text of a failure: which function is missing and in which table,
    /// that a call failed, or that the callback reference is null.
    pub open spec fn message_of(self) -> Seq<char> {
        match self {
            DeliveryError::Missing(function) => if function.of_vm() {
                "[jni] "@ + function.name_of() + " not found on jvm"@
            } else {
                "[jni-rust] [log] "@ + function.name_of() + " not found on env"@
            },
            DeliveryError::JniCall(_) => "JNI call failed"@,
            DeliveryError::CallbackNull => "[jni] cb_ref can not be null"@,
            DeliveryError::Unexpected => "[jni] the report does not answer the step"@,
        }
    }

    /// The text that reports this failure on the fallback output.
    pub fn message(&self) -> (text: String)
        ensures
            text@ == self.message_of(),
    {
        match self {
            DeliveryError::Missing(function) => {
                let on_vm = match function {
                    HostFunction::GetEnv => true,
                    HostFunction::AttachCurrentThread => true,
                    HostFunction::DetachCurrentThread => true,
                    _ => false,
                };
                if on_vm {
                    String::from_str("[jni] ").concat(function.name()).concat(" not found on jvm")
                } else {
                    String::from_str("[jni-rust] [log] ").concat(function.name()).concat(
                        " not found on env",
                    )
                }
            },
            DeliveryError::JniCall(_) => String::from_str("JNI call failed"),
            DeliveryError::CallbackNull => String::from_str("[jni] cb_ref can not be null"),
            DeliveryError::Unexpected => String::from_str(
                "[jni] the report does not answer the step",
            ),
        }
    }
}

/// Where a delivery stands.
#[derive(Clone, Copy, Debug, PartialEq, Eq, Structural)]
pub struct Stage {
    /// The step that the caller is to do now.
    pub step: Step,
    /// Whether this delivery has attached the thread to the host.
    pub attached: bool,
    /// The failure that the delivery will finish with once the thread is
    /// detached.
    pub pending: Option<DeliveryError>,
}

/// What follows a step.
#[derive(Clone, Copy, Debug, PartialEq, Eq)]
pub enum Progress {
    /// The delivery goes on from this stage.
    Next(Stage),
    /// The delivery is over, with this outcome.
    Finished(Result<(), DeliveryError>),
}

/// A delivery that has been started: the call to make and the stage it
/// stands at.
pub struct RawDelivery<'a> {
    pub call: HostCall<'a>,
    pub stage: Stage,
}

impl Step {
    /// The place of a step in the order in which a delivery takes them.
    pub open spec fn rank(self) -> int {
        match self {
            Step::Call(HostFunction::GetEnv) => 0,
            Step::Call(HostFunction::AttachCurrentThread) => 1,
            Step::CheckCallback => 2,
            Step::Call(HostFunction::GetObjectClass) => 3,
            Step::Call(HostFunction::GetMethodID) => 4,
            Step::Call(HostFunction::NewStringUTF) => 5,
            Step::Call(HostFunction::CallVoidMethodA) => 6,
            Step::Call(HostFunction::DetachCurrentThread) => 7,
        }
    }
}

impl Stage {
    /// The stage at which every delivery starts.
    pub open spec fn start() -> Stage {
        Stage { step: Step::Call(HostFunction::GetEnv), attached: false, pending: None }
    }

    /// What holds of every stage that a delivery reaches: a failure is
    /// pending only while the thread is being detached, only a thread that
    /// this delivery attached is detached, and it is attached before
    /// anything is done with the environment.
    pub open spec fn reachable(self) -> bool {
        &&& self.pending is Some ==> self.step == Step::Call(HostFunction::DetachCurrentThread)
        &&& self.step == Step::Call(HostFunction::DetachCurrentThread) ==> self.attached
        &&& self.attached ==> self.step.rank() >= 2
    }

    /// The delivery goes on with `step`.
    pub open spec fn go(self, step: Step) -> Progress {
        Progress::Next(Stage { step, attached: self.attached, pending: self.pending })
    }

    /// The delivery is to end with `outcome`: at once where the thread was
    /// attached before the delivery began, and after detaching it where the
    /// delivery attached it.
    pub open spec fn settle(self, outcome: Result<(), DeliveryError>) -> Progress {
        if self.attached {
            Progress::Next(
                Stage {
                    step: Step::Call(HostFunction::DetachCurrentThread),
                    attached: true,
                    pending: match outcome {
                        Ok(_) => None,
                        Err(e) => Some(e),
                    },
                },
            )
        } else {
            Progress::Finished(outcome)
        }
    }

    /// What follows when the caller has done the step of this stage and
    /// reports `observed`.
    pub open spec fn next(self, observed: Observed) -> Progress {
        match self.step {
            Step::Call(HostFunction::GetEnv) => match observed {
                Observed::Missing => self.settle(Err(DeliveryError::Missing(HostFunction::GetEnv))),
                Observed::Status(code) => match status_of(code) {
                    Ok(_) => self.go(Step::CheckCallback),
                    Err(JniFailure::ThreadDetached) => self.go(
                        Step::Call(HostFunction::AttachCurrentThread),
                    ),
                    Err(failure) => self.settle(Err(DeliveryError::JniCall(failure))),
                },
                _ => self.settle(Err(DeliveryError::Unexpected)),
            },
            Step::Call(HostFunction::AttachCurrentThread) => match observed {
                Observed::Missing => self.settle(
                    Err(DeliveryError::Missing(HostFunction::AttachCurrentThread)),
                ),
                Observed::Status(code) => match status_of(code) {
                    Ok(_) => Progress::Next(
                        Stage { step: Step::CheckCallback, attached: true, pending: self.pending },
                    ),
                    Err(failure) => self.settle(Err(DeliveryError::JniCall(failure))),
                },
                _ => self.settle(Err(DeliveryError::Unexpected)),
            },
            Step::CheckCallback => match observed {
                Observed::Callback { null } => if null {
                    self.settle(Err(DeliveryError::CallbackNull))
                } else {
                    self.go(Step::Call(HostFunction::GetObjectClass))
                },
                _ => self.settle(Err(DeliveryError::Unexpected)),
            },
            Step::Call(HostFunction::GetObjectClass) => self.after_call(
                HostFunction::GetObjectClass,
                observed,
                self.go(Step::Call(HostFunction::GetMethodID)),
            ),
            Step::Call(HostFunction::GetMethodID) => self.after_call(
                HostFunction::GetMethodID,
                observed,
                self.go(Step::Call(HostFunction::NewStringUTF)),
            ),
            Step::Call(HostFunction::NewStringUTF) => self.after_call(
                HostFunction::NewStringUTF,
                observed,
                self.go(Step::Call(HostFunction::CallVoidMethodA)),
            ),
            Step::Call(HostFunction::CallVoidMethodA) => self.after_call(
                HostFunction::CallVoidMethodA,
                observed,
                self.settle(Ok(())),
            ),
            Step::Call(HostFunction::DetachCurrentThread) => Progress::Finished(
                match self.pending {
                    Some(e) => Err(e),
                    None => match observed {
                        Observed::Missing => Err(
                            DeliveryError::Missing(HostFunction::DetachCurrentThread),
                        ),
                        Observed::Status(code) => match status_of(code) {
                            Ok(_) => Ok(()),
                            Err(failure) => Err(DeliveryError::JniCall(failure)),
                        },
                        _ => Err(DeliveryError::Unexpected),
                    },
                },
            ),
        }
    }

    /// What follows a call of a function of the environment's table: `then`
    /// where it was called, and the end of the delivery where it is missing.
    pub open spec fn after_call(
        self,
        function: HostFunction,
        observed: Observed,
        then: Progress,
    ) -> Progress {
        match observed {
            Observed::Missing => self.settle(Err(DeliveryError::Missing(function))),
            Observed::Called => then,
            _ => self.settle(Err(DeliveryError::Unexpected)),
        }
    }

    fn proceed(self, step: Step) -> (progress: Progress)
        ensures
            progress == self.go(step),
    {
        Progress::Next(Stage { step, attached: self.attached, pending: self.pending })
    }

    fn end_with(self, outcome: Result<(), DeliveryError>) -> (progress: Progress)
        ensures
            progress == self.settle(outcome),
    {
        if self.attached {
            Progress::Next(
                Stage {
                    step: Step::Call(HostFunction::DetachCurrentThread),
                    attached: true,
                    pending: match outcome {
                        Ok(_) => None,
                        Err(e) => Some(e),
                    },
                },
            )
        } else {
            Progress::Finished(outcome)
        }
    }

    fn called(self, function: HostFunction, observed: Observed, then: Progress) -> (progress:
        Progress)
        ensures
            progress == self.after_call(function, observed, then),
    {
        match observed {
            Observed::Missing => self.end_with(Err(DeliveryError::Missing(function))),
            Observed::Called => then,
            _ => self.end_with(Err(DeliveryError::Unexpected)),
        }
    }

    /// Decides what follows the step of this stage, given what the caller
    /// saw when it did the step.
    pub fn advance(self, observed: Observed) -> (progress: Progress)
        ensures
            progress == self.next(observed),
    {
        match self.step {
            Step::Call(HostFunction::GetEnv) => match observed {
                Observed::Missing => self.end_with(
                    Err(DeliveryError::Missing(HostFunction::GetEnv)),
                ),
                Observed::Status(code) => match check_status(code) {
                    Ok(_) => self.proceed(Step::CheckCallback),
                    Err(JniFailure::ThreadDetached) => self.proceed(
                        Step::Call(HostFunction::AttachCurrentThread),
                    ),
                    Err(failure) => self.end_with(Err(DeliveryError::JniCall(failure))),
                },
                _ => self.end_with(Err(DeliveryError::Unexpected)),
            },
            Step::Call(HostFunction::AttachCurrentThread) => match observed {
                Observed::Missing => self.end_with(
                    Err(DeliveryError::Missing(HostFunction::AttachCurrentThread)),
                ),
                Observed::Status(code) => match check_status(code) {
                    Ok(_) => Progress::Next(
                        Stage { step: Step::CheckCallback, attached: true, pending: self.pending },
                    ),
                    Err(failure) => self.end_with(Err(DeliveryError::JniCall(failure))),
                },
                _ => self.end_with(Err(DeliveryError::Unexpected)),
            },
            Step::CheckCallback => match observed {
                Observed::Callback { null } => if null {
                    self.end_with(Err(DeliveryError::CallbackNull))
                } else {
                    self.proceed(Step::Call(HostFunction::GetObjectClass))
                },
                _ => self.end_with(Err(DeliveryError::Unexpected)),
            },
            Step::Call(HostFunction::GetObjectClass) => {
                let then = self.proceed(Step::Call(HostFunction::GetMethodID));
                self.called(HostFunction::GetObjectClass, observed, then)
            },
            Step::Call(HostFunction::GetMethodID) => {
                let then = self.proceed(Step::Call(HostFunction::NewStringUTF));
                self.called(HostFunction::GetMethodID, observed, then)
            },
            Step::Call(HostFunction::NewStringUTF) => {
                let then = self.proceed(Step::Call(HostFunction::CallVoidMethodA));
                self.called(HostFunction::NewStringUTF, observed, then)
            },
            Step::Call(HostFunction::CallVoidMethodA) => {
                let then = self.end_with(Ok(()));
                self.called(HostFunction::CallVoidMethodA, observed, then)
            },
            Step::Call(HostFunction::DetachCurrentThread) => Progress::Finished(
                match self.pending {
                    Some(e) => Err(e),
                    None => match observed {
                        Observed::Missing => Err(
                            DeliveryError::Missing(HostFunction::DetachCurrentThread),
                        ),
                        Observed::Status(code) => match check_status(code) {
                            Ok(_) => Ok(()),
                            Err(failure) => Err(DeliveryError::JniCall(failure)),
                        },
                        _ => Err(DeliveryError::Unexpected),
                    },
                },
            ),
        }
    }
}

impl<V, R> LogCallbackCtx<V, R> {
    /// Starts the delivery of one log event through the host's function
    /// tables: the event is marshalled, and the first step is to get the
    /// environment of the current thread.
    pub fn on_log_message_impl_with_no_macro<'a>(
        &self,
        category: &'a str,
        level: u8,
        message: &'a str,
    ) -> (delivery: RawDelivery<'a>)
        ensures
            delivery.call == host_call_of(category, level, message),
            delivery.stage == Stage::start(),
    {
        RawDelivery {
            call: host_call(category, level, message),
            stage: Stage {
                step: Step::Call(HostFunction::GetEnv),
                attached: false,
                pending: None,
            },
        }
    }
}

/// The outcome of a delivery that starts at `stage` and is told `reports`
/// one after another; `None` where the reports end before the delivery does.
pub open spec fn outcome_of(stage: Stage, reports: Seq<Observed>) -> Option<
    Result<(), DeliveryError>,
>
    decreases reports.len(),
{
    if reports.len() == 0 {
        None
    } else {
        match stage.next(reports[0]) {
            Progress::Finished(outcome) => Some(outcome),
            Progress::Next(then) => outcome_of(then, reports.drop_first()),
        }
    }
}

/// The stage at which the report `reports[at]` arrives, in a delivery that
/// starts at `stage`; `None` where the delivery is over before.
pub open spec fn stage_at(stage: Stage, reports: Seq<Observed>, at: nat) -> Option<Stage>
    decreases at,
{
    if at == 0 {
        Some(stage)
    } else if reports.len() == 0 {
        None
    } else {
        match stage.next(reports[0]) {
            Progress::Finished(_) => None,
            Progress::Next(then) => stage_at(then, reports.drop_first(), (at - 1) as nat),
        }
    }
}

/// Each step comes later in the order of steps than the one before it.
pub proof fn lemma_advance_moves_on(stage: Stage, observed: Observed)
    ensures
        0 <= stage.step.rank() <= 7,
        stage.next(observed) matches Progress::Next(then) ==> then.step.rank()
            > stage.step.rank(),
{
}

/// A delivery is over after eight reports at most, whatever they are.
pub proof fn lemma_delivery_ends(stage: Stage, reports: Seq<Observed>)
    requires
        reports.len() >= 8 - stage.step.rank(),
    ensures
        outcome_of(stage, reports) is Some,
    decreases reports.len(),
{
    lemma_advance_moves_on(stage, reports[0]);
    match stage.next(reports[0]) {
        Progress::Finished(_) => {},
        Progress::Next(then) => {
            lemma_delivery_ends(then, reports.drop_first());
        },
    }
}

/// What `Stage::reachable` says holds at the start and after every step.
pub proof fn lemma_reachable_is_kept(stage: Stage, observed: Observed)
    requires
        stage.reachable(),
    ensures
        Stage::start().reachable(),
        stage.next(observed) matches Progress::Next(then) ==> then.reachable(),
{
}

/// The functions of the environment's table are called, and the callback
/// reference is tested, only when the thread holds an environment: `GetEnv`
/// or `AttachCurrentThread` has returned success just before the first of
/// these steps.
pub proof fn lemma_environment_comes_first(stage: Stage, observed: Observed)
    requires
        stage.reachable(),
        stage.step.rank() < 2,
    ensures
        stage.next(observed) matches Progress::Next(then) ==> {
            ||| then.step == Step::Call(HostFunction::AttachCurrentThread) && stage.step
                == Step::Call(HostFunction::GetEnv)
            ||| then.step == Step::CheckCallback && (observed matches Observed::Status(code)
                && status_of(code) is Ok)
        },
{
}

/// A thread that the delivery attached stays attached until the last step,
/// which detaches it: the delivery does not end before.
pub proof fn lemma_detached_before_the_end(stage: Stage, observed: Observed)
    requires
        stage.reachable(),
        stage.attached,
    ensures
        stage.next(observed) is Finished ==> stage.step == Step::Call(
            HostFunction::DetachCurrentThread,
        ),
        stage.next(observed) matches Progress::Next(then) ==> then.attached,
{
}

/// A failure that a step meets is the failure that the delivery ends with:
/// at once, or after the thread has been detached, whatever detaching
/// reports.
pub proof fn lemma_failure_is_kept(stage: Stage, failure: DeliveryError, observed: Observed)
    ensures
        stage.settle(Err(failure)) matches Progress::Finished(outcome) ==> outcome == Err::<
            (),
            DeliveryError,
        >(failure),
        stage.settle(Err(failure)) matches Progress::Next(then) ==> then.next(observed)
            == Progress::Finished(Err(failure)),
{
}

/// A delivery that ends well has called the host's log method: one of its
/// reports is `Called`, given at the step `CallVoidMethodA`.
pub proof fn lemma_success_needs_the_call(stage: Stage, reports: Seq<Observed>) -> (at: nat)
    requires
        stage.reachable(),
        stage.step.rank() <= 6,
        outcome_of(stage, reports) == Some(Ok::<(), DeliveryError>(())),
    ensures
        at < reports.len(),
        reports[at as int] == Observed::Called,
        stage_at(stage, reports, at) matches Some(then) && then.step == Step::Call(
            HostFunction::CallVoidMethodA,
        ),
    decreases reports.len(),
{
    lemma_reachable_is_kept(stage, reports[0]);
    lemma_advance_moves_on(stage, reports[0]);
    if stage.step == Step::Call(HostFunction::CallVoidMethodA) {
        0
    } else {
        match stage.next(reports[0]) {
            Progress::Finished(_) => 0,
            Progress::Next(then) => {
                let rest = reports.drop_first();
                if then.step == Step::Call(HostFunction::DetachCurrentThread) {
                    assert(then.pending is Some);
                    assert(rest.len() > 0);
                    0
                } else {
                    let at = lemma_success_needs_the_call(then, rest);
                    assert(rest[at as int] == reports[at as int + 1]);
                    (at + 1) as nat
                }
            },
        }
    }
}

} // verus!
