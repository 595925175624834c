use vstd::prelude::*;

verus! {

/// The answer to a ping.
#[derive(Debug, Clone)]
pub struct PingResponse {
    pub message: String,
}

/// The answer to a request to read the detection database again.
#[derive(Debug, Clone)]
pub struct ReloadDatabaseResponse {
    pub success: bool,
    pub error: Option<String>,
}

/// The text each ping is answered with.
pub open spec fn ping_text() -> Seq<char> {
    "Hello from the other side!"@
}

/// The answer every ping gets.
pub fn ping_reply() -> (r: PingResponse)
    ensures
        r.message@ == ping_text(),
{
    PingResponse { message: String::from_str("Hello from the other side!") }
}

/// The daemon's control service: it answers pings and, on request, runs
/// `db_reload` to read the detection database again.
pub struct DaemonService<F: Send + Sync + 'static + Fn() -> ()> {
    pub db_reload: F,
}

impl<F: Send + Sync + 'static + Fn() -> ()> DaemonService<F> {
    /// The service that reloads the database with `db_reload`.
    pub fn new(db_reload: F) -> (s: Self)
        ensures
            s.db_reload == db_reload,
    {
        Self { db_reload }
    }

    /// Answers a ping, whatever it says.
    pub fn ping(&self) -> (r: PingResponse)
        ensures
            r.message@ == ping_text(),
    {
        ping_reply()
    }

    /// Runs the reload hook once and answers that the reload succeeded,
    /// whatever the request says.
    pub fn reload_database(&self) -> (r: ReloadDatabaseResponse)
        requires
            call_requires(self.db_reload, ()),
        ensures
            call_ensures(self.db_reload, (), ()),
            r.success,
            r.error is None,
    {
        let done = (self.db_reload)();
        assert(done == ());
        ReloadDatabaseResponse { success: true, error: None }
    }
}

/// The daemon's health service: it answers pings.
#[derive(Debug, Default)]
pub struct DaemonHealthService {}

impl DaemonHealthService {
    /// Answers a ping, whatever it says.
    pub fn ping(&self) -> (r: PingResponse)
        ensures
            r.message@ == ping_text(),
    {
        ping_reply()
    }
}

} // verus!
