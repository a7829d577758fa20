//! Admission of requests under load.
//!
//! A limiter that watches the CPU decides which requests are let through. The
//! module is switched on by a directive, asks the limiter in the access phase, and
//! in the log phase reports to the limiter that an admitted request is over.
use vstd::prelude::*;

verus! {

/// What a handler reports to nginx.
#[derive(Clone, Copy, Debug, PartialEq, Eq, Structural)]
pub enum Status {
    /// `NGX_OK`
    NgxOk,
    /// `NGX_ERROR`
    NgxError,
    /// `NGX_DECLINED`: the next handler of the phase is asked.
    NgxDeclined,
    /// The HTTP status "bandwidth limit exceeded": the request is refused.
    BandwidthLimitExceeded,
}

/// Where the load of the CPU is read.
#[derive(Clone, Copy, Debug, PartialEq, Eq, Structural)]
pub enum CPUStatProviderName {
    Machine,
    CGroup,
    /// A provider for which there is no loader.
    Other,
}

/// A loader of the CPU's load.
#[derive(Clone, Copy, Debug, PartialEq, Eq, Structural)]
pub enum CPULoader {
    Machine,
    CGroup,
}

/// The loader for `provider`. Control groups exist on Linux only.
pub fn select_loader(provider: CPUStatProviderName, linux: bool) -> (loader: Option<CPULoader>)
    ensures
        loader == Some(CPULoader::Machine) <==> provider is Machine,
        loader == Some(CPULoader::CGroup) <==> provider is CGroup && linux,
        loader is None <==> provider is Other || (provider is CGroup && !linux),
{
    match provider {
        CPUStatProviderName::Machine => Some(CPULoader::Machine),
        CPUStatProviderName::CGroup if linux => Some(CPULoader::CGroup),
        _ => None,
    }
}

/// Why two configurations could not be merged.
#[derive(Clone, Copy, Debug, PartialEq, Eq, Structural)]
pub enum MergeConfigError {
    NoValue,
}

/// The configuration of the module.
#[derive(Clone, Copy, Debug, PartialEq, Eq, Structural)]
pub struct ModuleConfig {
    pub cpu_provider: CPUStatProviderName,
    pub enable: bool,
}

impl Default for ModuleConfig {
    /// Switched off, and reading the load of the machine.
    fn default() -> (conf: Self)
        ensures
            conf == (ModuleConfig { cpu_provider: CPUStatProviderName::Machine, enable: false }),
    {
        ModuleConfig { cpu_provider: CPUStatProviderName::Machine, enable: false }
    }
}

/// `c`, in lower case if it is an ASCII letter.
pub open spec fn ascii_lower(c: char) -> char {
    if 'A' <= c <= 'Z' {
        (c as u32 + 32) as char
    } else {
        c
    }
}

/// `a` and `b` are the same but for the case of ASCII letters.
pub open spec fn same_ignoring_ascii_case(a: Seq<char>, b: Seq<char>) -> bool {
    &&& a.len() == b.len()
    &&& forall|i: int| 0 <= i < a.len() ==> ascii_lower(#[trigger] a[i]) == ascii_lower(b[i])
}

fn to_ascii_lower(c: char) -> (lower: char)
    ensures
        lower == ascii_lower(c),
{
    if 'A' <= c && c <= 'Z' {
        (c as u8 + 32) as char
    } else {
        c
    }
}

fn eq_ignore_ascii_case(a: &str, b: &str) -> (res: bool)
    ensures
        res == same_ignoring_ascii_case(a@, b@),
{
    let len: usize = a.unicode_len();
    if len != b.unicode_len() {
        return false;
    }
    let mut i: usize = 0;
    while i < len
        invariant
            i <= len,
            len == a@.len(),
            len == b@.len(),
            forall|j: int| 0 <= j < i ==> ascii_lower(#[trigger] a@[j]) == ascii_lower(b@[j]),
        decreases len - i,
    {
        if to_ascii_lower(a.get_char(i)) != to_ascii_lower(b.get_char(i)) {
            return false;
        }
        i += 1;
    }
    true
}

impl ModuleConfig {
    /// What merging the configuration of an outer block into `self` gives.
    pub open spec fn merged(self, prev: ModuleConfig) -> ModuleConfig {
        ModuleConfig { enable: self.enable || prev.enable, ..self }
    }

    /// What the directive `bbr` makes of `self`.
    pub open spec fn directed(self, value: Seq<char>) -> ModuleConfig {
        ModuleConfig { enable: same_ignoring_ascii_case(value, "on"@), ..self }
    }

    /// Takes over from the configuration of an outer block that the module is on.
    pub fn merge(&mut self, prev: &ModuleConfig) -> (res: Result<(), MergeConfigError>)
        ensures
            res == Ok::<(), MergeConfigError>(()),
            *final(self) == old(self).merged(*prev),
            final(self).cpu_provider == old(self).cpu_provider,
            final(self).enable <==> old(self).enable || prev.enable,
    {
        if prev.enable {
            self.enable = true;
        }
        Ok(())
    }
}

/// The directive `bbr`: `on`, in any case, switches the module on, and any other
/// value switches it off.
pub fn ngx_http_bbr_commands_set_enable(conf: &mut ModuleConfig, value: &str)
    ensures
        *final(conf) == old(conf).directed(value@),
        final(conf).cpu_provider == old(conf).cpu_provider,
        final(conf).enable <==> value@.len() == 2 && (value@[0] == 'o' || value@[0] == 'O') && (
        value@[1] == 'n' || value@[1] == 'N'),
{
    proof {
        reveal_strlit("on");
        reveal_strlit("off");
        directive_switches_on_for_on_alone(*conf, value@);
    }
    conf.enable = false;
    if value.unicode_len() == 2 && eq_ignore_ascii_case(value, "on") {
        conf.enable = true;
    } else if value.unicode_len() == 3 && eq_ignore_ascii_case(value, "off") {
        conf.enable = false;
    }
}

/// What the module keeps of an admitted request: what to run when it is over.
pub struct NgxBBRCtx<F> {
    pub done: Option<F>,
}

impl<F> Default for NgxBBRCtx<F> {
    /// With nothing to run.
    fn default() -> (ctx: Self)
        ensures
            ctx == (NgxBBRCtx::<F> { done: None }),
    {
        NgxBBRCtx { done: None }
    }
}

impl<F: FnOnce()> NgxBBRCtx<F> {
    /// Runs what is to be run, if it has not been run yet.
    pub fn call_done(&mut self)
        requires
            old(self).done matches Some(done) ==> done.requires(()),
        ensures
            final(self).done is None,
            old(self).done matches Some(done) ==> done.ensures((), ()),
    {
        if let Some(done) = self.done.take() {
            done();
        }
    }
}

/// The log phase: an admitted request is over.
pub fn bbr_done_handler<F: FnOnce()>(ctx: Option<&mut NgxBBRCtx<F>>)
    requires
        ctx matches Some(c) ==> (c.done matches Some(done) ==> done.requires(())),
    ensures
        ctx matches Some(c) ==> final(c).done is None && (c.done matches Some(done)
            ==> done.ensures((), ())),
{
    if let Some(ctx) = ctx {
        ctx.call_done();
    }
}

/// What has happened in the access phase of a request.
pub enum AccessEvent<F> {
    /// The handler was called.
    Called { conf: ModuleConfig },
    /// A context was asked of the pool of the request; a null pointer may have come back.
    Allocated { null: bool },
    /// The limiter was asked: what to run when the request is over, or nothing where
    /// it does not let the request through.
    Answered { done: Option<F> },
}

/// What the access handler does next.
pub enum AccessAction<F> {
    /// Allocates a context in the pool of the request.
    Allocate,
    /// Asks the limiter.
    AskLimiter,
    /// Stores `ctx`, where there is one, as the context of the request, and returns.
    Return { ctx: Option<NgxBBRCtx<F>>, status: Status },
}

/// What the access handler does after `event`.
pub open spec fn access_step<F>(event: AccessEvent<F>) -> AccessAction<F> {
    match event {
        AccessEvent::Called { conf } => if conf.enable {
            AccessAction::Allocate
        } else {
            AccessAction::Return { ctx: None, status: Status::NgxDeclined }
        },
        AccessEvent::Allocated { null } => if null {
            AccessAction::Return { ctx: None, status: Status::NgxError }
        } else {
            AccessAction::AskLimiter
        },
        AccessEvent::Answered { done } => match done {
            Some(_) => AccessAction::Return {
                ctx: Some(NgxBBRCtx { done }),
                status: Status::NgxDeclined,
            },
            None => AccessAction::Return { ctx: None, status: Status::BandwidthLimitExceeded },
        },
    }
}

/// The access phase: where the module is on, a request goes through if the limiter
/// lets it.
pub fn bbr_access_handler<F>(event: AccessEvent<F>) -> (action: AccessAction<F>)
    ensures
        action == access_step(event),
        event matches AccessEvent::Called { conf } ==> if conf.enable {
            action is Allocate
        } else {
            action == (AccessAction::<F>::Return { ctx: None, status: Status::NgxDeclined })
        },
        event matches AccessEvent::Allocated { null } ==> if null {
            action == (AccessAction::<F>::Return { ctx: None, status: Status::NgxError })
        } else {
            action is AskLimiter
        },
        event matches AccessEvent::Answered { done: Some(done) } ==> action
            == (AccessAction::Return {
            ctx: Some(NgxBBRCtx { done: Some(done) }),
            status: Status::NgxDeclined,
        }),
        event matches AccessEvent::Answered { done: None } ==> action
            == (AccessAction::<F>::Return { ctx: None, status: Status::BandwidthLimitExceeded }),
{
    match event {
        AccessEvent::Called { conf } => {
            if conf.enable {
                AccessAction::Allocate
            } else {
                AccessAction::Return { ctx: None, status: Status::NgxDeclined }
            }
        },
        AccessEvent::Allocated { null } => {
            if null {
                AccessAction::Return { ctx: None, status: Status::NgxError }
            } else {
                AccessAction::AskLimiter
            }
        },
        AccessEvent::Answered { done } => {
            if done.is_some() {
                let mut ctx = NgxBBRCtx::default();
                ctx.done = done;
                AccessAction::Return { ctx: Some(ctx), status: Status::NgxDeclined }
            } else {
                AccessAction::Return { ctx: None, status: Status::BandwidthLimitExceeded }
            }
        },
    }
}

/// The last action of the access handler for a request under `conf`, where the pool
/// gives `null` and the limiter answers `done` if they are asked.
pub open spec fn access_run<F>(conf: ModuleConfig, null: bool, done: Option<F>) -> AccessAction<F> {
    match access_step(AccessEvent::<F>::Called { conf }) {
        AccessAction::Allocate => match access_step(AccessEvent::<F>::Allocated { null }) {
            AccessAction::AskLimiter => access_step(AccessEvent::Answered { done }),
            action => action,
        },
        action => action,
    }
}

/// What has happened while the handlers of the module are registered.
#[derive(Clone, Copy, Debug, PartialEq, Eq, Structural)]
pub enum SetupEvent {
    /// The configuration was read.
    Configured,
    /// A slot was pushed onto the handlers of the access phase; a null pointer may have
    /// come back.
    AccessPushed { null: bool },
    /// A slot was pushed onto the handlers of the log phase.
    LogPushed { null: bool },
}

/// What is done next to register the handlers of the module.
#[derive(Clone, Copy, Debug, PartialEq, Eq, Structural)]
pub enum SetupAction {
    /// Pushes a slot onto the handlers of the access phase.
    PushAccess,
    /// Stores the access handler in the slot pushed last, and pushes a slot onto the
    /// handlers of the log phase.
    StoreAccessThenPushLog,
    /// Stores the log handler in the slot pushed last, and returns the status.
    StoreLogThenReturn { status: Status },
    /// Returns the status.
    Return { status: Status },
}

/// Registers the access handler, then the log handler.
pub fn postconfiguration(event: SetupEvent) -> (action: SetupAction)
    requires
        event != (SetupEvent::LogPushed { null: true }),
    ensures
        action == match event {
            SetupEvent::Configured => SetupAction::PushAccess,
            SetupEvent::AccessPushed { null: true } => SetupAction::Return {
                status: Status::NgxError,
            },
            SetupEvent::AccessPushed { null: false } => SetupAction::StoreAccessThenPushLog,
            SetupEvent::LogPushed { .. } => SetupAction::StoreLogThenReturn {
                status: Status::NgxOk,
            },
        },
{
    match event {
        SetupEvent::Configured => SetupAction::PushAccess,
        SetupEvent::AccessPushed { null } => {
            if null {
                SetupAction::Return { status: Status::NgxError }
            } else {
                SetupAction::StoreAccessThenPushLog
            }
        },
        SetupEvent::LogPushed { .. } => SetupAction::StoreLogThenReturn { status: Status::NgxOk },
    }
}

/// A request keeps a context exactly if the module is on, the context could be
/// allocated and the limiter let the request through; the context then holds what the
/// limiter gave. Without the limiter's leave an enabled module never declines.
pub proof fn only_admitted_requests_keep_a_context<F>(
    conf: ModuleConfig,
    null: bool,
    done: Option<F>,
)
    ensures
        access_run(conf, null, done) == (AccessAction::Return {
            ctx: if conf.enable && !null && done is Some {
                Some(NgxBBRCtx { done })
            } else {
                None
            },
            status: if !conf.enable {
                Status::NgxDeclined
            } else if null {
                Status::NgxError
            } else if done is Some {
                Status::NgxDeclined
            } else {
                Status::BandwidthLimitExceeded
            },
        }),
{
}

/// A context is allocated exactly for a call with the module on, the limiter is asked
/// exactly after an allocation that gave memory, a context is kept exactly after the
/// limiter's leave and holds what the limiter gave, and each status has its one cause.
pub proof fn each_access_action_has_one_cause<F>(event: AccessEvent<F>)
    ensures
        access_step(event) is Allocate <==> (event matches AccessEvent::Called { conf }
            && conf.enable),
        access_step(event) is AskLimiter <==> (event matches AccessEvent::Allocated { null }
            && !null),
        access_step(event) matches AccessAction::Return { ctx: Some(ctx), status } ==> event
            == (AccessEvent::Answered { done: ctx.done }) && ctx.done is Some
            && status is NgxDeclined,
        event matches AccessEvent::Answered { done: Some(done) } ==> access_step(
            event,
        ) matches AccessAction::Return { ctx: Some(ctx), .. } && ctx.done == Some(done),
        access_step(event) matches AccessAction::Return { status, .. } ==> {
            &&& status is NgxDeclined <==> (event matches AccessEvent::Called { conf }
                && !conf.enable) || (event matches AccessEvent::Answered { done } && done is Some)
            &&& status is NgxError <==> (event matches AccessEvent::Allocated { null } && null)
            &&& status is BandwidthLimitExceeded <==> (event matches AccessEvent::Answered { done }
                && done is None)
            &&& !(status is NgxOk)
        },
{
}

/// A configuration that another one is merged into keeps its own provider, whatever
/// the other one holds, and is on exactly if either was; of the other one nothing
/// counts but whether it is on.
pub proof fn merging_takes_over_enable_alone(
    conf: ModuleConfig,
    prev: ModuleConfig,
    other: ModuleConfig,
)
    ensures
        conf.merged(prev).cpu_provider == conf.cpu_provider,
        conf.merged(prev).enable <==> conf.enable || prev.enable,
        prev.enable == other.enable ==> conf.merged(prev) == conf.merged(other),
        !prev.enable ==> conf.merged(prev) == conf,
{
}

/// The directive switches the module on exactly for an `o` followed by an `n`, each in
/// either case, whatever the configuration was, and leaves the provider alone.
pub proof fn directive_switches_on_for_on_alone(conf: ModuleConfig, value: Seq<char>)
    ensures
        conf.directed(value).enable <==> value.len() == 2 && (value[0] == 'o' || value[0] == 'O')
            && (value[1] == 'n' || value[1] == 'N'),
        conf.directed(value).cpu_provider == conf.cpu_provider,
{
    reveal_strlit("on");
    let on = "on"@;
    if same_ignoring_ascii_case(value, on) {
        ascii_case_pairs_letters(value[0], on[0]);
        ascii_case_pairs_letters(value[1], on[1]);
    }
}

/// After any call of `merge`, the configuration has the provider that it had before, and
/// is on exactly if it or the other one was.
pub proof fn a_merge_keeps_the_provider(
    conf: &mut ModuleConfig,
    prev: &ModuleConfig,
    res: Result<(), MergeConfigError>,
)
    requires
        call_ensures(ModuleConfig::merge, (conf, prev), res),
    ensures
        res is Ok,
        final(conf).cpu_provider == old(conf).cpu_provider,
        final(conf).enable <==> old(conf).enable || prev.enable,
{
}

/// After two calls of the directive with one value, both configurations are on or both
/// are off, whatever they were; where both are on, the two values differ in case at most.
/// Each configuration keeps its provider, and is on exactly after an `o` and an `n`.
pub proof fn directives_do_not_depend_on_the_configuration(
    first: &mut ModuleConfig,
    second: &mut ModuleConfig,
    value: &str,
    other: &str,
)
    requires
        call_ensures(ngx_http_bbr_commands_set_enable, (first, value), ()),
        call_ensures(ngx_http_bbr_commands_set_enable, (second, other), ()),
    ensures
        value@ == other@ ==> final(first).enable == final(second).enable,
        final(first).enable && final(second).enable ==> same_ignoring_ascii_case(value@, other@),
        final(first).cpu_provider == old(first).cpu_provider,
        final(second).cpu_provider == old(second).cpu_provider,
        final(first).enable <==> value@.len() == 2 && (value@[0] == 'o' || value@[0] == 'O') && (
        value@[1] == 'n' || value@[1] == 'N'),
{
}

/// Two characters are the same but for ASCII case exactly if they are equal or are the
/// upper and the lower form of one of the letters from `a` to `z`.
pub proof fn ascii_case_pairs_letters(a: char, b: char)
    ensures
        ascii_lower(a) == ascii_lower(b) <==> {
            ||| a == b
            ||| 'A' <= a <= 'Z' && b as int == a as int + 32
            ||| 'A' <= b <= 'Z' && a as int == b as int + 32
        },
{
}

/// The order in which configurations are merged does not matter, merging one twice
/// is merging it once, and merging never switches the module off.
pub proof fn merging_collects_enable(conf: ModuleConfig, a: ModuleConfig, b: ModuleConfig)
    ensures
        conf.merged(a).merged(b) == conf.merged(b).merged(a),
        conf.merged(a).merged(b) == conf.merged(a.merged(b)),
        conf.merged(a).merged(a) == conf.merged(a),
        conf.enable || a.enable <==> conf.merged(a).enable,
{
}

/// Of several directives the last one counts, and the case of its letters does not.
pub proof fn the_last_directive_counts(
    conf: ModuleConfig,
    earlier: Seq<char>,
    value: Seq<char>,
    other: Seq<char>,
)
    requires
        same_ignoring_ascii_case(value, other),
    ensures
        conf.directed(earlier).directed(value) == conf.directed(value),
        conf.directed(value) == conf.directed(other),
{
    let on = "on"@;
    if same_ignoring_ascii_case(value, on) {
        assert forall|i: int| 0 <= i < other.len() implies ascii_lower(#[trigger] other[i])
            == ascii_lower(on[i]) by {
            assert(ascii_lower(value[i]) == ascii_lower(other[i]));
        }
    }
    if same_ignoring_ascii_case(other, on) {
        assert forall|i: int| 0 <= i < value.len() implies ascii_lower(#[trigger] value[i])
            == ascii_lower(on[i]) by {
            assert(ascii_lower(other[i]) == ascii_lower(on[i]));
        }
    }
}

} // verus!
