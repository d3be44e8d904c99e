//! Calendar event resolver: the authorization state machine and the
//! "which event is active at instant `now`" query.
//!
//! The native provider is reached only by the surrounding application; this
//! module holds every decision the resolver makes, over plain values: the
//! provider's reported authorization status, the outcome of a one-time access
//! request, and the fetched events with their start and end instants (seconds
//! since the Unix epoch).

use vstd::prelude::*;

verus! {

/// Half-width of the symmetric search window handed to the provider, in
/// seconds: generous enough that any event containing the query instant
/// overlaps the window.
pub const SEARCH_WINDOW_SECONDS: i64 = 3600;

/// Authorization level the process holds for the native calendar store.
#[derive(Clone, Copy, PartialEq, Eq, Structural, Debug)]
pub enum CalendarAuthorization {
    NotDetermined,
    Restricted,
    Denied,
    Authorized,
}

/// Outcome of the one-time, user-mediated access request, as observed after a
/// bounded wait: the user granted, the user declined, or the wait expired.
#[derive(Clone, Copy, PartialEq, Eq, Structural, Debug)]
pub enum GrantOutcome {
    Granted,
    Denied,
    TimedOut,
}

/// The distinct, user-actionable ways the resolver can fail.
#[derive(Clone, Copy, PartialEq, Eq, Structural, Debug)]
pub enum CalendarError {
    /// The user declined access, now or in an earlier session.
    PermissionDenied,
    /// The access request received no answer within the bounded wait.
    PermissionTimeout,
    /// The provider handle could not be constructed.
    ProviderUnavailable,
    /// This build has no native calendar provider at all.
    UnsupportedPlatform,
}

/// A calendar event as fetched from the provider, valid only for the duration
/// of the query: an optional title and its span in seconds since the epoch.
#[derive(Debug)]
pub struct CalendarEvent {
    pub title: Option<String>,
    pub start: i64,
    pub end: i64,
}

impl CalendarError {
    /// The guidance text shown for each failure kind.
    pub open spec fn spec_message(self) -> Seq<char> {
        match self {
            CalendarError::PermissionDenied => "Calendar access denied. Please enable in System Settings > Privacy & Security > Calendars"@,
            CalendarError::PermissionTimeout => "Calendar permission request timed out"@,
            CalendarError::ProviderUnavailable => "Failed to create EKEventStore"@,
            CalendarError::UnsupportedPlatform => "Calendar integration is only supported on macOS"@,
        }
    }

    /// User-presentable message for this failure.
    pub fn message(&self) -> (r: String)
        ensures
            r@ == self.spec_message(),
    {
        match self {
            CalendarError::PermissionDenied => "Calendar access denied. Please enable in System Settings > Privacy & Security > Calendars".to_owned(),
            CalendarError::PermissionTimeout => "Calendar permission request timed out".to_owned(),
            CalendarError::ProviderUnavailable => "Failed to create EKEventStore".to_owned(),
            CalendarError::UnsupportedPlatform => "Calendar integration is only supported on macOS".to_owned(),
        }
    }
}

/// Raw provider status codes: 0 not determined, 1 restricted, 2 denied;
/// everything else grants access to event data.
pub open spec fn spec_authorization_from_raw(raw: i64) -> CalendarAuthorization {
    if raw == 0 {
        CalendarAuthorization::NotDetermined
    } else if raw == 1 {
        CalendarAuthorization::Restricted
    } else if raw == 2 {
        CalendarAuthorization::Denied
    } else {
        CalendarAuthorization::Authorized
    }
}

/// The provider reports its authorization status as a raw integer.
pub fn authorization_from_raw(raw: i64) -> (r: CalendarAuthorization)
    ensures
        r == spec_authorization_from_raw(raw),
{
    if raw == 0 {
        CalendarAuthorization::NotDetermined
    } else if raw == 1 {
        CalendarAuthorization::Restricted
    } else if raw == 2 {
        CalendarAuthorization::Denied
    } else {
        CalendarAuthorization::Authorized
    }
}

/// What the resolver does next, given the provider's authorization status.
#[derive(Clone, Copy, PartialEq, Eq, Structural, Debug)]
pub enum AuthStep {
    /// Already authorized: event data may be queried.
    Proceed,
    /// Not determined yet: issue the one-time access request and wait.
    RequestAccess,
    /// Terminal for the session: fail without issuing any request.
    Fail(CalendarError),
}

/// Requests are only meaningful from `NotDetermined`; a pre-existing
/// `Restricted` or `Denied` status is refused outright, and only
/// `Authorized` lets event data be read.
pub open spec fn spec_authorization_step(status: CalendarAuthorization) -> AuthStep {
    match status {
        CalendarAuthorization::NotDetermined => AuthStep::RequestAccess,
        CalendarAuthorization::Restricted => AuthStep::Fail(CalendarError::PermissionDenied),
        CalendarAuthorization::Denied => AuthStep::Fail(CalendarError::PermissionDenied),
        CalendarAuthorization::Authorized => AuthStep::Proceed,
    }
}

/// First transition of the resolver's state machine.
pub fn authorization_step(status: CalendarAuthorization) -> (r: AuthStep)
    ensures
        r == spec_authorization_step(status),
{
    match status {
        CalendarAuthorization::NotDetermined => AuthStep::RequestAccess,
        CalendarAuthorization::Restricted => AuthStep::Fail(CalendarError::PermissionDenied),
        CalendarAuthorization::Denied => AuthStep::Fail(CalendarError::PermissionDenied),
        CalendarAuthorization::Authorized => AuthStep::Proceed,
    }
}

/// A granted request authorizes the session; a declined one is a denial and
/// an expired wait a timeout, both terminal.
pub open spec fn spec_grant_step(outcome: GrantOutcome) -> Result<(), CalendarError> {
    match outcome {
        GrantOutcome::Granted => Ok(()),
        GrantOutcome::Denied => Err(CalendarError::PermissionDenied),
        GrantOutcome::TimedOut => Err(CalendarError::PermissionTimeout),
    }
}

/// Second transition: what the outcome of the access request means.
pub fn grant_step(outcome: GrantOutcome) -> (r: Result<(), CalendarError>)
    ensures
        r == spec_grant_step(outcome),
{
    match outcome {
        GrantOutcome::Granted => Ok(()),
        GrantOutcome::Denied => Err(CalendarError::PermissionDenied),
        GrantOutcome::TimedOut => Err(CalendarError::PermissionTimeout),
    }
}

/// The symmetric window `[now - 1h, now + 1h]` handed to the provider's
/// event query.
pub fn search_window(now: i64) -> (r: (i64, i64))
    requires
        i64::MIN + SEARCH_WINDOW_SECONDS <= now <= i64::MAX - SEARCH_WINDOW_SECONDS,
    ensures
        r.0 == now - SEARCH_WINDOW_SECONDS,
        r.1 == now + SEARCH_WINDOW_SECONDS,
{
    (now - SEARCH_WINDOW_SECONDS, now + SEARCH_WINDOW_SECONDS)
}

/// An event is active at `now` iff its span brackets `now`, both bounds
/// inclusive: one starting or ending exactly at `now` counts as active.
pub open spec fn spec_event_active(start: i64, end: i64, now: i64) -> bool {
    start <= now && end >= now
}

/// Time-active test for a single event, bounds inclusive.
pub fn event_active(start: i64, end: i64, now: i64) -> (r: bool)
    ensures
        r == spec_event_active(start, end, now),
{
    start <= now && end >= now
}

/// Title of the first event in scan order that is active at `now` and
/// carries a title; active events without one are passed over.
pub open spec fn spec_first_active_title(events: Seq<CalendarEvent>, now: i64) -> Option<Seq<char>>
    decreases events.len(),
{
    if events.len() == 0 {
        None
    } else {
        let e = events.first();
        if spec_event_active(e.start, e.end, now) && e.title is Some {
            Some(e.title->Some_0@)
        } else {
            spec_first_active_title(events.drop_first(), now)
        }
    }
}

/// Scan the fetched events in provider order and report the first time-active
/// one that has a title; `None` when nothing qualifies.
pub fn find_active_title(events: &Vec<CalendarEvent>, now: i64) -> (r: Option<String>)
    ensures
        match r {
            Some(t) => spec_first_active_title(events@, now) == Some(t@),
            None => spec_first_active_title(events@, now) is None,
        },
{
    let n = events.len();
    let mut i: usize = 0;
    proof {
        assert(events@.skip(0) =~= events@);
    }
    while i < n
        invariant
            i <= n,
            n == events@.len(),
            spec_first_active_title(events@.skip(i as int), now)
                == spec_first_active_title(events@, now),
        decreases n - i,
    {
        let e = &events[i];
        proof {
            assert(events@.skip(i as int).first() == events@[i as int]);
            assert(events@.skip(i as int).drop_first() =~= events@.skip(i as int + 1));
        }
        if event_active(e.start, e.end, now) {
            match &e.title {
                Some(t) => {
                    return Some(t.clone());
                }
                None => {}
            }
        }
        i = i + 1;
    }
    proof {
        assert(events@.skip(n as int) =~= Seq::<CalendarEvent>::empty());
    }
    None
}

/// What the resolver answers, given everything the platform reported: the
/// grant outcome is consulted only from `NotDetermined`, and event data only
/// once the session is authorized.
pub open spec fn spec_resolve(
    platform_supported: bool,
    store_available: bool,
    status: CalendarAuthorization,
    grant: GrantOutcome,
    events: Seq<CalendarEvent>,
    now: i64,
) -> Result<Option<Seq<char>>, CalendarError> {
    if !platform_supported {
        Err(CalendarError::UnsupportedPlatform)
    } else if !store_available {
        Err(CalendarError::ProviderUnavailable)
    } else {
        match spec_authorization_step(status) {
            AuthStep::Fail(e) => Err(e),
            AuthStep::RequestAccess => match spec_grant_step(grant) {
                Err(e) => Err(e),
                Ok(()) => Ok(spec_first_active_title(events, now)),
            },
            AuthStep::Proceed => Ok(spec_first_active_title(events, now)),
        }
    }
}

/// Resolve "what event is happening right now" from the facts the platform
/// supplied: whether this build has a native provider, whether the provider
/// handle could be constructed, the reported authorization status, the
/// outcome of the access request (read only from `NotDetermined`), and the
/// events fetched for the search window, in provider order.
pub fn get_current_calendar_event(
    platform_supported: bool,
    store_available: bool,
    status: CalendarAuthorization,
    grant: GrantOutcome,
    events: &Vec<CalendarEvent>,
    now: i64,
) -> (r: Result<Option<String>, CalendarError>)
    ensures
        match r {
            Ok(Some(t)) => spec_resolve(
                platform_supported,
                store_available,
                status,
                grant,
                events@,
                now,
            ) == Ok::<Option<Seq<char>>, CalendarError>(Some(t@)),
            Ok(None) => spec_resolve(
                platform_supported,
                store_available,
                status,
                grant,
                events@,
                now,
            ) == Ok::<Option<Seq<char>>, CalendarError>(None),
            Err(e) => spec_resolve(
                platform_supported,
                store_available,
                status,
                grant,
                events@,
                now,
            ) == Err::<Option<Seq<char>>, CalendarError>(e),
        },
{
    if !platform_supported {
        return Err(CalendarError::UnsupportedPlatform);
    }
    if !store_available {
        return Err(CalendarError::ProviderUnavailable);
    }
    match authorization_step(status) {
        AuthStep::Fail(e) => Err(e),
        AuthStep::RequestAccess => match grant_step(grant) {
            Err(e) => Err(e),
            Ok(()) => match find_active_title(events, now) {
                Some(t) => Ok(Some(t)),
                None => Ok(None),
            },
        },
        AuthStep::Proceed => match find_active_title(events, now) {
            Some(t) => Ok(Some(t)),
            None => Ok(None),
        },
    }
}

/// Separate entry point that merely reports how the permission dialog is
/// obtained; on builds without a native provider it fails with the
/// unsupported-platform message instead.
pub fn request_calendar_access(platform_supported: bool) -> (r: Result<String, String>)
    ensures
        platform_supported ==> (r matches Ok(m)
            && m@ == "Call get_current_event to trigger permission dialog"@),
        !platform_supported ==> (r matches Err(m)
            && m@ == CalendarError::UnsupportedPlatform.spec_message()),
{
    if platform_supported {
        Ok("Call get_current_event to trigger permission dialog".to_owned())
    } else {
        Err(CalendarError::UnsupportedPlatform.message())
    }
}

/// A declined grant from `NotDetermined` is a denial, and the answer does not
/// depend on any event data: no event query enters the decision.
pub proof fn lemma_denied_grant_ignores_events(
    events1: Seq<CalendarEvent>,
    events2: Seq<CalendarEvent>,
    now1: i64,
    now2: i64,
)
    ensures
        spec_resolve(
            true,
            true,
            CalendarAuthorization::NotDetermined,
            GrantOutcome::Denied,
            events1,
            now1,
        ) == Err::<Option<Seq<char>>, CalendarError>(CalendarError::PermissionDenied),
        spec_resolve(
            true,
            true,
            CalendarAuthorization::NotDetermined,
            GrantOutcome::Denied,
            events1,
            now1,
        ) == spec_resolve(
            true,
            true,
            CalendarAuthorization::NotDetermined,
            GrantOutcome::Denied,
            events2,
            now2,
        ),
{
}

/// A pre-existing `Denied` or `Restricted` status never issues an access
/// request — the step refuses outright — and the resolver's answer is a
/// denial whatever the grant outcome or event data would have been.
pub proof fn lemma_preexisting_denial_refuses(
    status: CalendarAuthorization,
    grant: GrantOutcome,
    events: Seq<CalendarEvent>,
    now: i64,
)
    requires
        status == CalendarAuthorization::Denied || status == CalendarAuthorization::Restricted,
    ensures
        spec_authorization_step(status) == AuthStep::Fail(CalendarError::PermissionDenied),
        spec_resolve(true, true, status, grant, events, now) == Err::<
            Option<Seq<char>>,
            CalendarError,
        >(CalendarError::PermissionDenied),
{
}

} // verus!
