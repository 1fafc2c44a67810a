use vstd::prelude::*;

verus! {

#[verifier::external_type_specification]
#[verifier::external_body]
pub struct ExEnigo(enigo::Enigo);

#[verifier::external_type_specification]
#[verifier::external_body]
pub struct ExInputError(enigo::InputError);

#[verifier::external_type_specification]
#[verifier::external_body]
pub struct ExNewConError(enigo::NewConError);

/// A key this library injects.
#[derive(Clone, Copy, Debug, PartialEq, Eq, Structural)]
pub enum InjectKey {
    Control,
    Letter(char),
    MediaPlayPause,
}

/// How a key is injected: down, up, or down then up.
#[derive(Clone, Copy, Debug, PartialEq, Eq, Structural)]
pub enum KeyDirection {
    Press,
    Release,
    Click,
}

/// Why an injection failed.
#[derive(Debug, PartialEq, Eq)]
pub enum InjectionError {
    /// No input-injection handle could be had (no display, permission denied).
    Connection(String),
    /// The operating system refused one of the key events.
    Input(String),
}

impl InjectionError {
    /// The description carried by the error.
    pub fn message(&self) -> (r: String)
        ensures
            r@ == match self {
                InjectionError::Connection(m) => m@,
                InjectionError::Input(m) => m@,
            },
    {
        match self {
            InjectionError::Connection(m) => m.clone(),
            InjectionError::Input(m) => m.clone(),
        }
    }
}

/// Relies on enigo::Enigo::new with default settings: opens a connection to
/// the input system, or reports why it could not.
#[verifier::external_body]
pub(crate) fn open_injector() -> (r: Result<enigo::Enigo, enigo::NewConError>) {
    enigo::Enigo::new(&enigo::Settings::default())
}

/// Relies on enigo::Keyboard::key: sends one key event to the window that
/// holds focus, or reports why it could not.
#[verifier::external_body]
pub(crate) fn send_key(injector: &mut enigo::Enigo, key: InjectKey, direction: KeyDirection)
    -> (r: Result<(), enigo::InputError>) {
    let k = match key {
        InjectKey::Control => enigo::Key::Control,
        InjectKey::Letter(c) => enigo::Key::Unicode(c),
        InjectKey::MediaPlayPause => enigo::Key::MediaPlayPause,
    };
    let d = match direction {
        KeyDirection::Press => enigo::Direction::Press,
        KeyDirection::Release => enigo::Direction::Release,
        KeyDirection::Click => enigo::Direction::Click,
    };
    enigo::Keyboard::key(injector, k, d)
}

/// Relies on the Display impl of enigo::NewConError for its description.
#[verifier::external_body]
pub(crate) fn connection_error_text(e: &enigo::NewConError) -> (r: String) {
    e.to_string()
}

/// Relies on the Display impl of enigo::InputError for its description.
#[verifier::external_body]
pub(crate) fn input_error_text(e: &enigo::InputError) -> (r: String) {
    e.to_string()
}

/// One call that a session makes on the input system.
#[derive(Clone, Copy, Debug, PartialEq, Eq, Structural)]
pub enum InputAction {
    /// Block the calling thread for the given milliseconds.
    Wait(u64),
    /// Acquire an input-injection handle.
    Connect,
    /// Send one key event through the handle.
    Key(InjectKey, KeyDirection),
}

/// The calls made since `before`, when `after` extends it.
pub open spec fn calls_since(before: Seq<(InputAction, bool)>, after: Seq<(InputAction, bool)>) -> Seq<(InputAction, bool)> {
    after.subrange(before.len() as int, after.len() as int)
}

/// Whether the plan's first `i` actions acquire a handle.
pub open spec fn connected_by(plan: Seq<InputAction>, i: int) -> bool
    decreases i,
{
    if i <= 0 {
        false
    } else {
        plan[i - 1] is Connect || connected_by(plan, i - 1)
    }
}

/// Every key event of the plan comes after a handle is acquired.
pub open spec fn keys_after_connect(plan: Seq<InputAction>) -> bool {
    forall|i: int| 0 <= i < plan.len() && (#[trigger] plan[i]) is Key ==> connected_by(plan, i)
}

/// `calls` carries out `plan`: the plan's actions in order, each one once,
/// every one but possibly the last succeeding (a wait always does), and stopping short of the end
/// only at a failure.
pub open spec fn follows_plan(plan: Seq<InputAction>, calls: Seq<(InputAction, bool)>) -> bool {
    &&& calls.len() <= plan.len()
    &&& forall|j: int| 0 <= j < calls.len() ==> (#[trigger] calls[j]).0 == plan[j]
    &&& forall|j: int| 0 <= j < calls.len() - 1 ==> (#[trigger] calls[j]).1
    &&& forall|j: int| 0 <= j < calls.len() && (#[trigger] calls[j]).0 is Wait ==> calls[j].1
    &&& calls.len() < plan.len() ==> calls.len() > 0 && !calls[calls.len() - 1].1
}

/// `r` reports `calls`: `Ok` when every call succeeded, else the error of
/// the failing last call, `Connection` for acquiring a handle and `Input`
/// for a key event.
pub open spec fn reports(calls: Seq<(InputAction, bool)>, r: Result<(), InjectionError>) -> bool {
    match r {
        Ok(()) => forall|j: int| 0 <= j < calls.len() ==> (#[trigger] calls[j]).1,
        Err(e) => {
            &&& calls.len() > 0
            &&& !calls[calls.len() - 1].1
            &&& calls[calls.len() - 1].0 is Connect ==> e is Connection
            &&& calls[calls.len() - 1].0 is Key ==> e is Input
        },
    }
}

/// A connection to the input system, with the record of every call made
/// through it and whether the call succeeded.
pub struct InputSession {
    handle: Option<enigo::Enigo>,
    calls: Ghost<Seq<(InputAction, bool)>>,
}

impl View for InputSession {
    type V = Seq<(InputAction, bool)>;

    closed spec fn view(&self) -> Seq<(InputAction, bool)> {
        self.calls@
    }
}

impl InputSession {
    /// A session that has made no call yet.
    pub fn new() -> (r: InputSession)
        ensures
            r@ == Seq::<(InputAction, bool)>::empty(),
    {
        InputSession { handle: None, calls: Ghost(Seq::empty()) }
    }

    /// Acquires a new handle; a failure is reported as `Connection`.
    fn connect(&mut self) -> (r: Result<(), InjectionError>)
        ensures
            final(self)@ == old(self)@.push((InputAction::Connect, r is Ok)),
            r is Ok ==> final(self).handle is Some,
            r is Err ==> final(self).handle == old(self).handle,
            r matches Err(e) ==> e is Connection,
    {
        let r = match open_injector() {
            Ok(injector) => {
                self.handle = Some(injector);
                Ok(())
            },
            Err(e) => Err(InjectionError::Connection(connection_error_text(&e))),
        };
        self.calls = Ghost(self.calls@.push((InputAction::Connect, r is Ok)));
        r
    }

    /// Sends one key event; a failure is reported as `Input`.
    fn key(&mut self, key: InjectKey, direction: KeyDirection) -> (r: Result<(), InjectionError>)
        requires
            old(self).handle is Some,
        ensures
            final(self)@ == old(self)@.push((InputAction::Key(key, direction), r is Ok)),
            final(self).handle is Some,
            r matches Err(e) ==> e is Input,
    {
        let r = match &mut self.handle {
            Some(injector) => match send_key(injector, key, direction) {
                Ok(()) => Ok(()),
                Err(e) => Err(InjectionError::Input(input_error_text(&e))),
            },
            None => {
                assert(false);
                Ok(())
            },
        };
        self.calls = Ghost(self.calls@.push((InputAction::Key(key, direction), r is Ok)));
        r
    }

    /// Waits `ms` milliseconds through `wait`.
    fn pause<F: Fn(u64)>(&mut self, wait: &F, ms: u64)
        requires
            wait.requires((ms,)),
        ensures
            final(self)@ == old(self)@.push((InputAction::Wait(ms), true)),
            final(self).handle == old(self).handle,
    {
        wait(ms);
        self.calls = Ghost(self.calls@.push((InputAction::Wait(ms), true)));
    }

    /// Carries out `plan` in order, calling `wait` for each wait, and stops
    /// at the first call that fails. The calls made are exactly a run of the
    /// plan, and the result reports them.
    pub fn run_plan<F: Fn(u64)>(&mut self, plan: &Vec<InputAction>, wait: &F) -> (r: Result<(), InjectionError>)
        requires
            forall|ms: u64| wait.requires((ms,)),
            keys_after_connect(plan@),
        ensures
            old(self)@.is_prefix_of(final(self)@),
            follows_plan(plan@, calls_since(old(self)@, final(self)@)),
            reports(calls_since(old(self)@, final(self)@), r),
    {
        let ghost start = self@;
        let mut i: usize = 0;
        while i < plan.len()
            invariant
                i <= plan@.len(),
                forall|ms: u64| wait.requires((ms,)),
                keys_after_connect(plan@),
                start == old(self)@,
                start.is_prefix_of(self@),
                self@.len() == start.len() + i,
                forall|j: int| 0 <= j < i ==> #[trigger] calls_since(start, self@)[j] == (plan@[j], true),
                connected_by(plan@, i as int) ==> self.handle is Some,
            decreases plan@.len() - i,
        {
            let action = plan[i];
            let ghost before = self@;
            let r = match action {
                InputAction::Wait(ms) => {
                    self.pause(wait, ms);
                    Ok(())
                },
                InputAction::Connect => self.connect(),
                InputAction::Key(key, direction) => {
                    assert(plan@[i as int] is Key);
                    self.key(key, direction)
                },
            };
            assert(calls_since(start, self@) =~= calls_since(start, before).push((action, r is Ok)));
            assert(self@.subrange(0, start.len() as int) =~= before.subrange(0, start.len() as int));
            if r.is_err() {
                let ghost c = calls_since(start, self@);
                proof {
                    assert forall|j: int| 0 <= j < c.len() implies (#[trigger] c[j]).0 == plan@[j] by {
                        if j < i {
                            assert(c[j] == (plan@[j], true));
                        }
                    }
                    assert forall|j: int| 0 <= j < c.len() - 1 implies (#[trigger] c[j]).1 by {
                        assert(c[j] == (plan@[j], true));
                    }
                    assert forall|j: int| 0 <= j < c.len() && (#[trigger] c[j]).0 is Wait implies c[j].1 by {
                        if j < i {
                            assert(c[j] == (plan@[j], true));
                        }
                    }
                }
                assert(start.is_prefix_of(self@));
                return r;
            }
            i = i + 1;
        }
        assert(calls_since(start, self@).len() == plan@.len());
        Ok(())
    }
}

/// The calls of a media pause: acquire a handle, click play/pause.
pub open spec fn media_plan() -> Seq<InputAction> {
    seq![InputAction::Connect, InputAction::Key(InjectKey::MediaPlayPause, KeyDirection::Click)]
}

/// Pauses (or resumes) media playback: acquires a handle, then clicks the
/// play/pause media key once. A failed connect sends no key and reports
/// `Connection`; a refused click reports `Input`; otherwise `Ok`.
pub fn pause_media(session: &mut InputSession) -> (r: Result<(), InjectionError>)
    ensures
        old(session)@.is_prefix_of(final(session)@),
        follows_plan(media_plan(), calls_since(old(session)@, final(session)@)),
        reports(calls_since(old(session)@, final(session)@), r),
{
    let plan: Vec<InputAction> = vec![
        InputAction::Connect,
        InputAction::Key(InjectKey::MediaPlayPause, KeyDirection::Click),
    ];
    assert(plan@ =~= media_plan());
    assert(connected_by(plan@, 1));
    let wait = |ms: u64| {};
    session.run_plan(&plan, &wait)
}

} // verus!
