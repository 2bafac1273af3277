use rust_sdk::callback::LogCallbackCtx;
use rust_sdk::delivery::{
    DeliveryError, HostFunction, Observed, Progress, RawDelivery, Stage, Step,
};
use rust_sdk::status::JniFailure;

fn start() -> Stage {
    LogCallbackCtx::new((), ()).on_log_message_impl_with_no_macro("sdk", 3, "m").stage
}

fn at(step: Step, attached: bool) -> Stage {
    Stage { step, attached, pending: None }
}

fn run(reports: &[Observed]) -> (Vec<Step>, Option<Result<(), DeliveryError>>) {
    let mut stage = start();
    let mut steps = vec![stage.step];
    for report in reports {
        match stage.advance(*report) {
            Progress::Next(then) => {
                stage = then;
                steps.push(stage.step);
            },
            Progress::Finished(outcome) => return (steps, Some(outcome)),
        }
    }
    (steps, None)
}

#[test]
fn a_delivery_starts_by_asking_for_the_environment() {
    let RawDelivery { call, stage } =
        LogCallbackCtx::new(1, 2).on_log_message_impl_with_no_macro("sdk", 5, "[t]x");
    assert_eq!(stage, at(Step::Call(HostFunction::GetEnv), false));
    assert_eq!(call.method, "onLog");
    assert_eq!(call.signature, "(Ljava/lang/String;BLjava/lang/String;)V");
    assert_eq!(call.category, "sdk");
    assert_eq!(call.level, 5);
    assert_eq!(call.message, "[t]x");
}

#[test]
fn an_attached_thread_delivers_in_six_steps() {
    let (steps, outcome) = run(&[
        Observed::Status(0),
        Observed::Callback { null: false },
        Observed::Called,
        Observed::Called,
        Observed::Called,
        Observed::Called,
    ]);
    assert_eq!(
        steps,
        vec![
            Step::Call(HostFunction::GetEnv),
            Step::CheckCallback,
            Step::Call(HostFunction::GetObjectClass),
            Step::Call(HostFunction::GetMethodID),
            Step::Call(HostFunction::NewStringUTF),
            Step::Call(HostFunction::CallVoidMethodA),
        ]
    );
    assert_eq!(outcome, Some(Ok(())));
}

#[test]
fn a_detached_thread_is_attached_and_detached_again() {
    let (steps, outcome) = run(&[
        Observed::Status(-2),
        Observed::Status(0),
        Observed::Callback { null: false },
        Observed::Called,
        Observed::Called,
        Observed::Called,
        Observed::Called,
        Observed::Status(0),
    ]);
    assert_eq!(
        steps,
        vec![
            Step::Call(HostFunction::GetEnv),
            Step::Call(HostFunction::AttachCurrentThread),
            Step::CheckCallback,
            Step::Call(HostFunction::GetObjectClass),
            Step::Call(HostFunction::GetMethodID),
            Step::Call(HostFunction::NewStringUTF),
            Step::Call(HostFunction::CallVoidMethodA),
            Step::Call(HostFunction::DetachCurrentThread),
        ]
    );
    assert_eq!(outcome, Some(Ok(())));
}

#[test]
fn a_delivery_is_not_over_while_steps_remain() {
    let (steps, outcome) = run(&[Observed::Status(0), Observed::Callback { null: false }]);
    assert_eq!(steps.len(), 3);
    assert_eq!(outcome, None);
}

#[test]
fn a_missing_get_env_ends_the_delivery() {
    assert_eq!(
        start().advance(Observed::Missing),
        Progress::Finished(Err(DeliveryError::Missing(HostFunction::GetEnv)))
    );
}

#[test]
fn status_codes_are_read_as_the_interface_names_them() {
    let failures = [
        (-1, JniFailure::Unknown),
        (-3, JniFailure::WrongVersion),
        (-4, JniFailure::NoMemory),
        (-5, JniFailure::AlreadyCreated),
        (-6, JniFailure::InvalidArguments),
        (-7, JniFailure::Other(-7)),
        (1, JniFailure::Other(1)),
        (i32::MAX, JniFailure::Other(i32::MAX)),
        (i32::MIN, JniFailure::Other(i32::MIN)),
    ];
    for (code, failure) in failures {
        assert_eq!(
            start().advance(Observed::Status(code)),
            Progress::Finished(Err(DeliveryError::JniCall(failure)))
        );
    }
    assert_eq!(
        start().advance(Observed::Status(0)),
        Progress::Next(at(Step::CheckCallback, false))
    );
    assert_eq!(
        start().advance(Observed::Status(-2)),
        Progress::Next(at(Step::Call(HostFunction::AttachCurrentThread), false))
    );
}

#[test]
fn a_failed_attach_ends_the_delivery() {
    let stage = at(Step::Call(HostFunction::AttachCurrentThread), false);
    assert_eq!(
        stage.advance(Observed::Status(-4)),
        Progress::Finished(Err(DeliveryError::JniCall(JniFailure::NoMemory)))
    );
    assert_eq!(
        stage.advance(Observed::Status(-2)),
        Progress::Finished(Err(DeliveryError::JniCall(JniFailure::ThreadDetached)))
    );
    assert_eq!(
        stage.advance(Observed::Missing),
        Progress::Finished(Err(DeliveryError::Missing(HostFunction::AttachCurrentThread)))
    );
    assert_eq!(stage.advance(Observed::Status(0)), Progress::Next(at(Step::CheckCallback, true)));
}

#[test]
fn a_null_callback_ends_the_delivery() {
    assert_eq!(
        at(Step::CheckCallback, false).advance(Observed::Callback { null: true }),
        Progress::Finished(Err(DeliveryError::CallbackNull))
    );
    assert_eq!(
        at(Step::CheckCallback, false).advance(Observed::Callback { null: false }),
        Progress::Next(at(Step::Call(HostFunction::GetObjectClass), false))
    );
}

#[test]
fn a_missing_function_of_the_environment_ends_the_delivery() {
    for function in [
        HostFunction::GetObjectClass,
        HostFunction::GetMethodID,
        HostFunction::NewStringUTF,
        HostFunction::CallVoidMethodA,
    ] {
        assert_eq!(
            at(Step::Call(function), false).advance(Observed::Missing),
            Progress::Finished(Err(DeliveryError::Missing(function)))
        );
    }
}

#[test]
fn a_failure_after_attaching_waits_for_the_detach() {
    let detach = Step::Call(HostFunction::DetachCurrentThread);
    let failure = DeliveryError::Missing(HostFunction::GetMethodID);
    let pending = Stage { step: detach, attached: true, pending: Some(failure) };
    assert_eq!(
        at(Step::Call(HostFunction::GetMethodID), true).advance(Observed::Missing),
        Progress::Next(pending)
    );
    for report in [Observed::Status(0), Observed::Status(-1), Observed::Missing, Observed::Called]
    {
        assert_eq!(pending.advance(report), Progress::Finished(Err(failure)));
    }
    assert_eq!(
        at(Step::CheckCallback, true).advance(Observed::Callback { null: true }),
        Progress::Next(Stage {
            step: detach,
            attached: true,
            pending: Some(DeliveryError::CallbackNull)
        })
    );
}

#[test]
fn a_failed_detach_is_reported_when_nothing_else_failed() {
    let stage = at(Step::Call(HostFunction::DetachCurrentThread), true);
    assert_eq!(stage.advance(Observed::Status(0)), Progress::Finished(Ok(())));
    assert_eq!(
        stage.advance(Observed::Status(-1)),
        Progress::Finished(Err(DeliveryError::JniCall(JniFailure::Unknown)))
    );
    assert_eq!(
        stage.advance(Observed::Missing),
        Progress::Finished(Err(DeliveryError::Missing(HostFunction::DetachCurrentThread)))
    );
}

#[test]
fn a_report_that_does_not_fit_the_step_ends_the_delivery() {
    assert_eq!(
        start().advance(Observed::Called),
        Progress::Finished(Err(DeliveryError::Unexpected))
    );
    assert_eq!(
        at(Step::CheckCallback, false).advance(Observed::Status(0)),
        Progress::Finished(Err(DeliveryError::Unexpected))
    );
    assert_eq!(
        at(Step::Call(HostFunction::NewStringUTF), false).advance(Observed::Status(0)),
        Progress::Finished(Err(DeliveryError::Unexpected))
    );
    assert_eq!(
        at(Step::Call(HostFunction::DetachCurrentThread), true)
            .advance(Observed::Callback { null: false }),
        Progress::Finished(Err(DeliveryError::Unexpected))
    );
}

#[test]
fn every_delivery_ends_within_eight_reports() {
    let reports = [
        Observed::Missing,
        Observed::Status(0),
        Observed::Status(-2),
        Observed::Status(-1),
        Observed::Called,
        Observed::Callback { null: false },
        Observed::Callback { null: true },
    ];
    let mut trace = [0usize; 8];
    loop {
        let mut stage = start();
        let mut ended = false;
        for pick in trace {
            match stage.advance(reports[pick]) {
                Progress::Next(then) => stage = then,
                Progress::Finished(_) => {
                    ended = true;
                    break;
                },
            }
        }
        assert!(ended, "no end after {:?}", trace);
        let mut place = 0;
        while place < trace.len() && trace[place] + 1 == reports.len() {
            trace[place] = 0;
            place += 1;
        }
        if place == trace.len() {
            break;
        }
        trace[place] += 1;
    }
}

#[test]
fn messages_of_the_failures() {
    assert_eq!(
        DeliveryError::Missing(HostFunction::GetEnv).message(),
        "[jni] GetEnv not found on jvm"
    );
    assert_eq!(
        DeliveryError::Missing(HostFunction::AttachCurrentThread).message(),
        "[jni] AttachCurrentThread not found on jvm"
    );
    assert_eq!(
        DeliveryError::Missing(HostFunction::DetachCurrentThread).message(),
        "[jni] DetachCurrentThread not found on jvm"
    );
    assert_eq!(
        DeliveryError::Missing(HostFunction::GetObjectClass).message(),
        "[jni-rust] [log] GetObjectClass not found on env"
    );
    assert_eq!(
        DeliveryError::Missing(HostFunction::GetMethodID).message(),
        "[jni-rust] [log] GetMethodID not found on env"
    );
    assert_eq!(
        DeliveryError::Missing(HostFunction::NewStringUTF).message(),
        "[jni-rust] [log] NewStringUTF not found on env"
    );
    assert_eq!(
        DeliveryError::Missing(HostFunction::CallVoidMethodA).message(),
        "[jni-rust] [log] CallVoidMethodA not found on env"
    );
    assert_eq!(DeliveryError::CallbackNull.message(), "[jni] cb_ref can not be null");
    assert_eq!(DeliveryError::JniCall(JniFailure::ThreadDetached).message(), "JNI call failed");
    assert_eq!(DeliveryError::JniCall(JniFailure::Other(9)).message(), "JNI call failed");
    assert_eq!(
        DeliveryError::Unexpected.message(),
        "[jni] the report does not answer the step"
    );
}

#[test]
fn names_of_the_host_functions() {
    assert_eq!(HostFunction::GetEnv.name(), "GetEnv");
    assert_eq!(HostFunction::AttachCurrentThread.name(), "AttachCurrentThread");
    assert_eq!(HostFunction::DetachCurrentThread.name(), "DetachCurrentThread");
    assert_eq!(HostFunction::GetObjectClass.name(), "GetObjectClass");
    assert_eq!(HostFunction::GetMethodID.name(), "GetMethodID");
    assert_eq!(HostFunction::NewStringUTF.name(), "NewStringUTF");
    assert_eq!(HostFunction::CallVoidMethodA.name(), "CallVoidMethodA");
}
