use pty_process::{ConsoleSize, Error, OpenAction, OpenEvent, PtyOpener, Resource};

#[test]
fn open_succeeds_and_releases_handed_ends() {
    let (mut o, first) = PtyOpener::start();
    assert!(matches!(first, OpenAction::CreatePipe));
    let a = o.step(OpenEvent::PipeCreated { read: 10, write: 11 });
    assert!(matches!(a, OpenAction::CreatePipe));
    let a = o.step(OpenEvent::PipeCreated { read: 20, write: 21 });
    assert!(matches!(
        a,
        OpenAction::CreatePseudoConsole { size: ConsoleSize { x: 80, y: 24 }, input: 10, output: 21 }
    ));
    let a = o.step(OpenEvent::ConsoleCreated(30));
    assert!(matches!(a, OpenAction::Release(Resource::Pipe(10))));
    let a = o.step(OpenEvent::Released);
    assert!(matches!(a, OpenAction::Release(Resource::Pipe(21))));
    let a = o.step(OpenEvent::Released);
    match a {
        OpenAction::Finish(pty) => assert!(pty.pts().is_ok()),
        other => panic!("unexpected action {:?}", other),
    }
    assert!(!o.accepts(&OpenEvent::Released));
}

#[test]
fn failed_first_pipe_fails_at_once() {
    let (mut o, _) = PtyOpener::start();
    let a = o.step(OpenEvent::Failed(5));
    assert!(matches!(a, OpenAction::Fail(Error::Os(5))));
}

#[test]
fn failed_second_pipe_releases_first() {
    let (mut o, _) = PtyOpener::start();
    o.step(OpenEvent::PipeCreated { read: 10, write: 11 });
    let a = o.step(OpenEvent::Failed(7));
    assert!(matches!(a, OpenAction::Release(Resource::Pipe(10))));
    let a = o.step(OpenEvent::Released);
    assert!(matches!(a, OpenAction::Release(Resource::Pipe(11))));
    let a = o.step(OpenEvent::Released);
    assert!(matches!(a, OpenAction::Fail(Error::Os(7))));
}

#[test]
fn failed_console_releases_all_pipe_ends() {
    let (mut o, _) = PtyOpener::start();
    o.step(OpenEvent::PipeCreated { read: 10, write: 11 });
    o.step(OpenEvent::PipeCreated { read: 20, write: 21 });
    let a = o.step(OpenEvent::Failed(9));
    assert!(matches!(a, OpenAction::Release(Resource::Pipe(10))));
    let a = o.step(OpenEvent::Released);
    assert!(matches!(a, OpenAction::Release(Resource::Pipe(21))));
    let a = o.step(OpenEvent::Released);
    assert!(matches!(a, OpenAction::Release(Resource::Pipe(11))));
    let a = o.step(OpenEvent::Failed(4));
    assert!(matches!(a, OpenAction::Release(Resource::Pipe(20))));
    let a = o.step(OpenEvent::Released);
    assert!(matches!(a, OpenAction::Fail(Error::Os(9))));
}

#[test]
fn failed_close_releases_console_and_kept_ends() {
    let (mut o, _) = PtyOpener::start();
    o.step(OpenEvent::PipeCreated { read: 10, write: 11 });
    o.step(OpenEvent::PipeCreated { read: 20, write: 21 });
    o.step(OpenEvent::ConsoleCreated(30));
    o.step(OpenEvent::Released);
    let a = o.step(OpenEvent::Failed(3));
    assert!(matches!(a, OpenAction::Release(Resource::PseudoConsole(30))));
    let a = o.step(OpenEvent::Released);
    assert!(matches!(a, OpenAction::Release(Resource::Pipe(11))));
    let a = o.step(OpenEvent::Released);
    assert!(matches!(a, OpenAction::Release(Resource::Pipe(20))));
    let a = o.step(OpenEvent::Released);
    assert!(matches!(a, OpenAction::Fail(Error::Os(3))));
}

#[test]
fn opener_accepts_only_answers_to_its_action() {
    let (o, _) = PtyOpener::start();
    assert!(o.accepts(&OpenEvent::PipeCreated { read: 1, write: 2 }));
    assert!(o.accepts(&OpenEvent::Failed(1)));
    assert!(!o.accepts(&OpenEvent::ConsoleCreated(1)));
    assert!(!o.accepts(&OpenEvent::Released));
}
