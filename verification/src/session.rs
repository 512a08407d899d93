//! Sessions with a document source, and the store that holds them.

use crate::element::{first_index, lemma_first_index_is, lemma_first_index_none};
use crate::error::{AppError, AppErrorView};
use crate::models::LoginRequest;
use crate::text::clone_texts;
use crate::validation::{validate_url, validate_url_spec};
use vstd::prelude::*;

verus! {

/// How long a session lasts, in milliseconds: one hour.
pub const SESSION_LIFETIME_MS: i64 = 3_600_000;

/// An authenticated session. Times are milliseconds since the Unix epoch.
#[derive(Debug)]
pub struct Session {
    pub id: String,
    pub url: String,
    pub cookies: Vec<String>,
    pub created_at: i64,
    pub expires_at: i64,
}

/// The mathematical content of a [`Session`].
pub struct SessionView {
    pub id: Seq<char>,
    pub url: Seq<char>,
    pub cookies: Seq<Seq<char>>,
    pub created_at: int,
    pub expires_at: int,
}

impl View for Session {
    type V = SessionView;

    open spec fn view(&self) -> SessionView {
        SessionView {
            id: self.id@,
            url: self.url@,
            cookies: self.cookies.deep_view(),
            created_at: self.created_at as int,
            expires_at: self.expires_at as int,
        }
    }
}

impl DeepView for Session {
    type V = SessionView;

    open spec fn deep_view(&self) -> SessionView {
        self@
    }
}

/// What a client is told of a session that was opened for it.
#[derive(Debug)]
pub struct LoginResponse {
    pub session_id: String,
    pub cookies: Vec<String>,
    pub expires_at: i64,
}

/// The mathematical content of a [`LoginResponse`].
pub struct LoginResponseView {
    pub session_id: Seq<char>,
    pub cookies: Seq<Seq<char>>,
    pub expires_at: int,
}

impl View for LoginResponse {
    type V = LoginResponseView;

    open spec fn view(&self) -> LoginResponseView {
        LoginResponseView {
            session_id: self.session_id@,
            cookies: self.cookies.deep_view(),
            expires_at: self.expires_at as int,
        }
    }
}

/// The session opened at `now` under `id`: it expires one hour later.
pub open spec fn opened_session(
    id: Seq<char>,
    url: Seq<char>,
    cookies: Seq<Seq<char>>,
    now: int,
) -> SessionView {
    SessionView { id, url, cookies, created_at: now, expires_at: now + SESSION_LIFETIME_MS }
}

/// What opening a session at `now` gives: the session, or none where its
/// expiry, one hour after `now`, is past the last time that can be held.
pub open spec fn session_opened_at(
    id: Seq<char>,
    url: Seq<char>,
    cookies: Seq<Seq<char>>,
    now: int,
) -> Option<SessionView> {
    if now + SESSION_LIFETIME_MS <= i64::MAX {
        Some(opened_session(id, url, cookies, now))
    } else {
        None
    }
}

/// Whether a session has expired at `now`: strictly after its expiry.
pub open spec fn expired_at(session: SessionView, now: int) -> bool {
    now > session.expires_at
}

/// `chrono::Utc::now` and `DateTime::timestamp_millis`: the clock's reading
/// in milliseconds since the Unix epoch. Nothing is claimed of it. The call
/// panics where the system clock stands before the epoch.
#[verifier::external_body]
pub(crate) fn now_millis() -> (now: i64) {
    chrono::Utc::now().timestamp_millis()
}

/// `uuid::Uuid::new_v4`, written out: a fresh random identifier. Nothing is
/// claimed of it.
#[verifier::external_body]
pub(crate) fn fresh_id() -> (id: String) {
    uuid::Uuid::new_v4().to_string()
}

impl Session {
    /// The session opened at `now` under `id`.
    pub fn opened(id: String, url: String, cookies: Vec<String>, now: i64) -> (session: Session)
        requires
            now + SESSION_LIFETIME_MS <= i64::MAX,
        ensures
            session@ == opened_session(id@, url@, cookies.deep_view(), now as int),
    {
        Session { id, url, cookies, created_at: now, expires_at: now + SESSION_LIFETIME_MS }
    }

    /// Opens a session at `now` under `id`, where its expiry can be held.
    pub fn open_at(id: String, url: String, cookies: Vec<String>, now: i64) -> (session: Option<
        Session,
    >)
        ensures
            session.deep_view() == session_opened_at(
                id@,
                url@,
                cookies.deep_view(),
                now as int,
            ),
    {
        if now <= i64::MAX - SESSION_LIFETIME_MS {
            Some(Session::opened(id, url, cookies, now))
        } else {
            None
        }
    }

    /// Opens a session now, under a fresh identifier: what opening it at
    /// the clock's reading gives, under some identifier. There is none only
    /// where the clock stands within an hour of the last time that can be
    /// held.
    pub fn new(url: String, cookies: Vec<String>) -> (session: Option<Session>)
        ensures
            exists|id: Seq<char>, now: i64|
                session.deep_view() == #[trigger] session_opened_at(
                    id,
                    url@,
                    cookies.deep_view(),
                    now as int,
                ),
    {
        let now = now_millis();
        let id = fresh_id();
        let ghost name = id@;
        let session = Session::open_at(id, url, cookies, now);
        proof {
            assert(session.deep_view() == session_opened_at(
                name,
                url@,
                cookies.deep_view(),
                now as int,
            ));
        }
        session
    }

    /// Whether the session has expired at `now`.
    pub fn is_expired_at(&self, now: i64) -> (expired: bool)
        ensures
            expired == expired_at(self@, now as int),
    {
        now > self.expires_at
    }

    /// Whether the session has expired by the clock: whether it has expired
    /// at the clock's reading, whatever that is.
    pub fn is_expired(&self) -> (expired: bool)
        ensures
            exists|now: i64| expired == #[trigger] expired_at(self@, now as int),
    {
        let now = now_millis();
        let expired = self.is_expired_at(now);
        proof {
            assert(expired == expired_at(self@, now as int));
        }
        expired
    }

    /// A copy of the session.
    pub fn duplicate(&self) -> (copy: Session)
        ensures
            copy@ == self@,
    {
        Session {
            id: self.id.clone(),
            url: self.url.clone(),
            cookies: clone_texts(&self.cookies),
            created_at: self.created_at,
            expires_at: self.expires_at,
        }
    }

    /// What the client is told of the session.
    pub fn login_response(&self) -> (response: LoginResponse)
        ensures
            response@ == (LoginResponseView {
                session_id: self@.id,
                cookies: self@.cookies,
                expires_at: self@.expires_at,
            }),
    {
        LoginResponse {
            session_id: self.id.clone(),
            cookies: clone_texts(&self.cookies),
            expires_at: self.expires_at,
        }
    }
}

/// The identifiers of the sessions of a store, in its order.
pub open spec fn session_ids(sessions: Seq<SessionView>) -> Seq<Seq<char>> {
    sessions.map_values(|s: SessionView| s.id)
}

/// The session that a store holds under `id`, if it holds one.
pub open spec fn session_at(sessions: Seq<SessionView>, id: Seq<char>) -> Option<SessionView> {
    match first_index(session_ids(sessions), id) {
        Some(i) => Some(sessions[i]),
        None => None,
    }
}

/// The store after `session` is put in: in place of the one held under
/// its identifier, or at the end.
pub open spec fn with_session(sessions: Seq<SessionView>, session: SessionView) -> Seq<
    SessionView,
> {
    match first_index(session_ids(sessions), session.id) {
        Some(i) => sessions.update(i, session),
        None => sessions.push(session),
    }
}

/// The store without the session held under `id`.
pub open spec fn without_session(sessions: Seq<SessionView>, id: Seq<char>) -> Seq<SessionView> {
    match first_index(session_ids(sessions), id) {
        Some(i) => sessions.remove(i),
        None => sessions,
    }
}

/// The sessions that have not expired at `now`, in their order.
pub open spec fn live_sessions(sessions: Seq<SessionView>, now: int) -> Seq<SessionView> {
    sessions.filter(|s: SessionView| !expired_at(s, now))
}

/// The sessions of a document source, each under its identifier.
#[derive(Debug)]
pub struct SessionStore {
    pub sessions: Vec<Session>,
}

impl View for SessionStore {
    type V = Seq<SessionView>;

    open spec fn view(&self) -> Seq<SessionView> {
        self.sessions.deep_view()
    }
}

impl SessionStore {
    /// The store without sessions.
    pub fn new() -> (store: SessionStore)
        ensures
            store@ == Seq::<SessionView>::empty(),
    {
        let store = SessionStore { sessions: Vec::new() };
        proof {
            assert(store@ =~= Seq::<SessionView>::empty());
        }
        store
    }

    /// The index of the session held under `id`.
    pub fn position(&self, id: &String) -> (found: Option<usize>)
        ensures
            match found {
                Some(i) => i < self@.len() && first_index(session_ids(self@), id@) == Some(
                    i as int,
                ),
                None => first_index(session_ids(self@), id@) is None,
            },
    {
        let ghost ids = session_ids(self@);
        let mut i: usize = 0;
        while i < self.sessions.len()
            invariant
                i <= self.sessions@.len(),
                ids == session_ids(self@),
                ids.len() == self.sessions@.len(),
                forall|j: int| 0 <= j < i ==> ids[j] != id@,
            decreases self.sessions@.len() - i,
        {
            assert(ids[i as int] == self.sessions@[i as int].id@);
            if self.sessions[i].id == *id {
                proof {
                    lemma_first_index_is(ids, id@, i as int);
                }
                return Some(i);
            }
            i = i + 1;
        }
        proof {
            lemma_first_index_none(ids, id@);
        }
        None
    }

    /// Puts a session in, in place of the one held under its identifier.
    pub fn insert(&mut self, session: Session)
        ensures
            final(self)@ == with_session(old(self)@, session@),
    {
        match self.position(&session.id) {
            Some(i) => {
                self.sessions.set(i, session);
                proof {
                    assert(final(self)@ =~= old(self)@.update(i as int, session@));
                }
            },
            None => {
                self.sessions.push(session);
                proof {
                    assert(final(self)@ =~= old(self)@.push(session@));
                }
            },
        }
    }

    /// A copy of the session held under `id`.
    pub fn get(&self, id: &String) -> (session: Option<Session>)
        ensures
            session.deep_view() == session_at(self@, id@),
    {
        match self.position(id) {
            Some(i) => {
                assert(self@[i as int] == self.sessions@[i as int]@);
                Some(self.sessions[i].duplicate())
            },
            None => None,
        }
    }

    /// Takes out the session held under `id`, if one is held.
    pub fn remove(&mut self, id: &String)
        ensures
            final(self)@ == without_session(old(self)@, id@),
    {
        match self.position(id) {
            Some(i) => {
                self.sessions.remove(i);
                proof {
                    assert(final(self)@ =~= old(self)@.remove(i as int));
                }
            },
            None => {},
        }
    }

    /// Takes out the sessions that have expired at `now`.
    pub fn remove_expired(&mut self, now: i64)
        ensures
            final(self)@ == live_sessions(old(self)@, now as int),
    {
        let ghost all = old(self)@;
        let ghost keep = |s: SessionView| !expired_at(s, now as int);
        let mut kept: Vec<Session> = Vec::new();
        let mut i: usize = 0;
        proof {
            assert(all.take(0) =~= Seq::empty());
            assert(kept.deep_view() =~= Seq::<SessionView>::empty());
            assert(all.take(0).filter(keep) =~= Seq::<SessionView>::empty());
        }
        while i < self.sessions.len()
            invariant
                i <= self.sessions@.len(),
                self@ == all,
                all.len() == self.sessions@.len(),
                keep == |s: SessionView| !expired_at(s, now as int),
                kept.deep_view() == all.take(i as int).filter(keep),
            decreases self.sessions@.len() - i,
        {
            proof {
                let next = all.take(i + 1);
                assert(next.drop_last() =~= all.take(i as int));
                assert(next.last() == all[i as int]);
                assert(all[i as int] == self.sessions@[i as int]@);
                reveal(Seq::filter);
            }
            let ghost before = kept.deep_view();
            if !self.sessions[i].is_expired_at(now) {
                kept.push(self.sessions[i].duplicate());
                proof {
                    assert(kept.deep_view() =~= before.push(all[i as int]));
                }
            }
            i = i + 1;
        }
        proof {
            assert(all.take(all.len() as int) =~= all);
        }
        self.sessions = kept;
    }
}

/// What a login yields once the source has answered: a request to an
/// address that is no HTTP address is refused whatever the answer; a
/// failed authentication fails the login and leaves the store as it was;
/// else the session is put in the store and the client told of it.
pub open spec fn login_spec(
    sessions: Seq<SessionView>,
    url: Seq<char>,
    authenticated: Result<SessionView, AppErrorView>,
) -> (Seq<SessionView>, Result<LoginResponseView, AppErrorView>) {
    if validate_url_spec(url) is Err {
        (sessions, Err(AppErrorView::InvalidUrl(url)))
    } else {
        match authenticated {
            Err(error) => (sessions, Err(error)),
            Ok(session) => (
                with_session(sessions, session),
                Ok(
                    LoginResponseView {
                        session_id: session.id,
                        cookies: session.cookies,
                        expires_at: session.expires_at,
                    },
                ),
            ),
        }
    }
}

/// The sessions opened by logins, and the rules of a login.
#[derive(Debug)]
pub struct AuthService {
    pub session_store: SessionStore,
}

impl AuthService {
    /// The service without sessions.
    pub fn new() -> (service: AuthService)
        ensures
            service.session_store@ == Seq::<SessionView>::empty(),
    {
        AuthService { session_store: SessionStore::new() }
    }

    /// Whether `url` is an HTTP address.
    pub fn is_valid_url(&self, url: &str) -> (valid: bool)
        ensures
            valid == (validate_url_spec(url@) is Ok),
    {
        validate_url(url).is_ok()
    }

    /// Refuses a login at an address that is no HTTP address, before the
    /// source is asked.
    pub fn check_login(&self, request: &LoginRequest) -> (outcome: Result<(), AppError>)
        ensures
            match outcome {
                Ok(_) => validate_url_spec(request.url@) is Ok,
                Err(error) => validate_url_spec(request.url@) is Err && error@
                    == AppErrorView::InvalidUrl(request.url@),
            },
    {
        validate_url(request.url.as_str())
    }

    /// Ends a login with what the source answered.
    pub fn login(&mut self, request: &LoginRequest, authenticated: Result<Session, AppError>) -> (outcome:
        Result<LoginResponse, AppError>)
        ensures
            final(self).session_store@ == login_spec(
                old(self).session_store@,
                request.url@,
                match authenticated {
                    Ok(session) => Ok(session@),
                    Err(error) => Err(error@),
                },
            ).0,
            match outcome {
                Ok(response) => login_spec(
                    old(self).session_store@,
                    request.url@,
                    match authenticated {
                        Ok(session) => Ok(session@),
                        Err(error) => Err(error@),
                    },
                ).1 == Ok::<LoginResponseView, AppErrorView>(response@),
                Err(error) => login_spec(
                    old(self).session_store@,
                    request.url@,
                    match authenticated {
                        Ok(session) => Ok(session@),
                        Err(error) => Err(error@),
                    },
                ).1 == Err::<LoginResponseView, AppErrorView>(error@),
            },
    {
        match validate_url(request.url.as_str()) {
            Err(error) => {
                return Err(error);
            },
            Ok(_) => {},
        }
        match authenticated {
            Err(error) => Err(error),
            Ok(session) => {
                let response = session.login_response();
                self.session_store.insert(session);
                Ok(response)
            },
        }
    }

    /// A copy of the session held under `session_id`.
    pub fn get_session(&self, session_id: &str) -> (outcome: Result<Option<Session>, AppError>)
        ensures
            outcome is Ok,
            outcome->Ok_0.deep_view() == session_at(self.session_store@, session_id@),
    {
        Ok(self.session_store.get(&String::from_str(session_id)))
    }

    /// Ends the session held under `session_id`, if one is held.
    pub fn logout(&mut self, session_id: &str) -> (outcome: Result<(), AppError>)
        ensures
            outcome is Ok,
            final(self).session_store@ == without_session(old(self).session_store@, session_id@),
    {
        self.session_store.remove(&String::from_str(session_id));
        Ok(())
    }

    /// Takes out the sessions that have expired by the clock: what stays
    /// are the sessions that live at some one time.
    pub fn cleanup_expired_sessions(&mut self)
        ensures
            exists|now: i64| final(self).session_store@ == #[trigger] live_sessions(
                old(self).session_store@,
                now as int,
            ),
    {
        let now = now_millis();
        self.session_store.remove_expired(now);
        proof {
            assert(final(self).session_store@ == live_sessions(
                old(self).session_store@,
                now as int,
            ));
        }
    }
}

} // verus!
