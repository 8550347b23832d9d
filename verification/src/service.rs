//! The badge service as the API sees it: how it takes its configuration, how
//! it counts the heartbeats that failed, and what it reports.
use crate::configuration::BadgeConfiguration;
use crate::sdk::client::Client;
use crate::sdk::error::{Error, ErrorView};
use crate::sdk::models::{line_views, MonitoringStatus, MonitoringStatusView, StatusLine, StatusLineView};
use crate::sdk::service::{
    is_registration_of, APIConfiguration, Service as ServiceModel, ServiceSDK,
};
use crate::text::occurs_at;
use vstd::prelude::*;

verus! {

/// The name under which the badge service registers.
pub const SERVICE_NAME: &'static str = "cds-service-badge";

/// The type of the badge service.
pub const SERVICE_TYPE: &'static str = "badge";

/// The badge service as the API sees it.
#[derive(Debug)]
pub struct Service {
    pub service: ServiceSDK,
    pub config: BadgeConfiguration,
    /// How many heartbeats failed so far.
    pub current_heartbeat_failures: i32,
}

impl Default for Service {
    fn default() -> (r: Service)
        ensures
            r.service.is_blank(),
            r.config.is_default(),
            r.current_heartbeat_failures == 0,
    {
        Service {
            service: ServiceSDK::new(),
            config: BadgeConfiguration::default(),
            current_heartbeat_failures: 0,
        }
    }
}

/// The badge service with a configuration, before any heartbeat.
pub fn new(config: BadgeConfiguration) -> (r: Service)
    ensures
        r.service.is_blank(),
        r.config == config,
        r.current_heartbeat_failures == 0,
{
    Service { service: ServiceSDK::new(), config, current_heartbeat_failures: 0 }
}

/// What is wrong with a configuration, if anything: the first of token,
/// address of the API, address of the service and name that is empty.
pub open spec fn configuration_fault(
    token: Seq<char>,
    api_url: Seq<char>,
    url: Seq<char>,
    name: Seq<char>,
) -> Option<Seq<char>> {
    if token.len() == 0 {
        Some("token must not be empty"@)
    } else if api_url.len() == 0 {
        Some("api_url must not be empty"@)
    } else if url.len() == 0 {
        Some("url must not be empty"@)
    } else if name.len() == 0 {
        Some("name must not be empty"@)
    } else {
        None
    }
}

/// A service after it has registered at second `now`: it has the hash that
/// the API gave and the time, and is otherwise as before.
pub open spec fn registered(before: ServiceSDK, hash: String, now: i64) -> ServiceSDK {
    ServiceSDK { hash: hash, startup_time: Some(now), ..before }
}

/// The two lines of the service's own report: its version, and the time.
pub open spec fn own_lines(now_text: Seq<char>) -> Seq<StatusLineView> {
    seq![
        StatusLineView {
            status: "OK"@,
            component: "Version"@,
            value: "snapshot"@,
            _type: Seq::empty(),
        },
        StatusLineView { status: "OK"@, component: now_text, value: "Time"@, _type: Seq::empty() },
    ]
}

/// The service's own report at second `now`, whose text is `now_text`.
pub fn status(now: i64, now_text: &str) -> (r: MonitoringStatus)
    ensures
        r@ == (MonitoringStatusView { now: Some(now), lines: own_lines(now_text@) }),
{
    let mut lines: Vec<StatusLine> = Vec::new();
    lines.push(
        StatusLine {
            status: "OK".to_owned(),
            component: "Version".to_owned(),
            value: "snapshot".to_owned(),
            _type: String::new(),
        },
    );
    lines.push(
        StatusLine {
            status: "OK".to_owned(),
            component: now_text.to_owned(),
            value: "Time".to_owned(),
            _type: String::new(),
        },
    );
    assert(line_views(lines@) =~= own_lines(now_text@));
    MonitoringStatus { now: Some(now), lines: Some(lines) }
}

impl Service {
    /// Takes a configuration over: the client of the API is made anew, and
    /// the service gets its name, its type and its token.
    pub fn apply_configuration(&mut self, config: BadgeConfiguration, api: &APIConfiguration) -> (r:
        Result<(), Error>)
        ensures
            r is Ok,
            final(self).service.client.host@ == api.http.url@,
            final(self).service.client.token@ == api.token@,
            final(self).service.client.session_token@.len() == 0,
            final(self).service.client.insecure_skip_verify_tls == !occurs_at(
                api.http.url@,
                "https"@,
                0,
            ),
            final(self).service.service_name@ == SERVICE_NAME@,
            final(self).service.api@ == api.http.url@,
            final(self).service.name == config.name,
            final(self).service.token@ == api.token@,
            final(self).service.service_type@ == SERVICE_TYPE@,
            final(self).service.hash == old(self).service.hash,
            final(self).service.startup_time == old(self).service.startup_time,
            final(self).service.http_url == old(self).service.http_url,
            final(self).service.max_heartbeat_failures == old(self).service.max_heartbeat_failures,
            final(self).config == old(self).config,
            final(self).current_heartbeat_failures == old(self).current_heartbeat_failures,
    {
        self.service.client = Client::new(api.http.url.as_str(), api.token.as_str());
        self.service.service_name = SERVICE_NAME.to_owned();
        self.service.api = api.http.url.clone();
        self.service.name = config.name;
        self.service.token = api.token.clone();
        self.service.service_type = SERVICE_TYPE.to_owned();
        Ok(())
    }

    /// Checks a configuration: it is good exactly when token, address of the
    /// API, address of the service and name are all given, and the failure
    /// names the first that is not.
    pub fn check_configuration(&self, config: &BadgeConfiguration, api: &APIConfiguration) -> (r:
        Result<(), Error>)
        ensures
            match configuration_fault(api.token@, api.http.url@, config.url@, config.name@) {
                Some(fault) => r is Err && r->Err_0@ == ErrorView::Custom(fault),
                None => r is Ok,
            },
    {
        if api.token.as_str().is_empty() {
            return Err(Error::Custom("token must not be empty".to_owned()));
        }
        if api.http.url.as_str().is_empty() {
            return Err(Error::Custom("api_url must not be empty".to_owned()));
        }
        if config.url.as_str().is_empty() {
            return Err(Error::Custom("url must not be empty".to_owned()));
        }
        if config.name.as_str().is_empty() {
            return Err(Error::Custom("name must not be empty".to_owned()));
        }
        Ok(())
    }

    /// Whether another heartbeat may be sent: not once more heartbeats have
    /// failed than the service allows.
    pub fn heartbeat_due(&self) -> (r: Result<(), Error>)
        ensures
            r is Ok <==> self.current_heartbeat_failures <= self.service.max_heartbeat_failures,
            r is Err ==> r->Err_0@ == ErrorView::Custom("max heartbeat failures"@),
    {
        if self.current_heartbeat_failures > self.service.max_heartbeat_failures {
            Err(Error::Custom("max heartbeat failures".to_owned()))
        } else {
            Ok(())
        }
    }

    /// What the service sends to register itself at second `now`.
    pub fn registration(&self, status: MonitoringStatus, config: String, now: i64) -> (r:
        ServiceModel)
        ensures
            is_registration_of(r, self.service, status, config, now),
    {
        self.service.registration(status, config, now)
    }

    /// Takes the outcome of a registration at second `now`: the hash that the
    /// API gave is kept, with the time, and nothing else changes; a failure is
    /// handed on and changes nothing at all.
    pub fn register(&mut self, outcome: Result<String, Error>, now: i64) -> (r: Result<(), Error>)
        ensures
            final(self).config == old(self).config,
            final(self).current_heartbeat_failures == old(self).current_heartbeat_failures,
            match outcome {
                Ok(hash) => r is Ok && final(self).service == registered(
                    old(self).service,
                    hash,
                    now,
                ),
                Err(e) => r == Err::<(), Error>(e) && final(self).service == old(self).service,
            },
    {
        match outcome {
            Ok(hash) => {
                self.service.hash = hash;
                self.service.startup_time = Some(now);
                Ok(())
            },
            Err(e) => Err(e),
        }
    }

    /// Takes the outcome of the registration that a heartbeat made. Once more
    /// heartbeats have failed than the service allows, the heartbeat is
    /// refused and nothing changes. Before that it never fails: a success is
    /// kept as by `register`, and a failure is counted, where the count stops
    /// at the greatest number it can hold.
    pub fn heartbeat(&mut self, outcome: Result<String, Error>, now: i64) -> (r: Result<(), Error>)
        ensures
            final(self).config == old(self).config,
            r is Ok <==> old(self).current_heartbeat_failures <= old(
                self,
            ).service.max_heartbeat_failures,
            r is Err ==> {
                &&& r->Err_0@ == ErrorView::Custom("max heartbeat failures"@)
                &&& *final(self) == *old(self)
            },
            r is Ok ==> match outcome {
                Ok(hash) => {
                    &&& final(self).service == registered(old(self).service, hash, now)
                    &&& final(self).current_heartbeat_failures == old(
                        self,
                    ).current_heartbeat_failures
                },
                Err(_) => {
                    &&& final(self).service == old(self).service
                    &&& final(self).current_heartbeat_failures == if old(
                        self,
                    ).current_heartbeat_failures < i32::MAX {
                        old(self).current_heartbeat_failures + 1
                    } else {
                        i32::MAX as int
                    }
                },
            },
    {
        match self.heartbeat_due() {
            Ok(()) => {},
            Err(e) => {
                return Err(e);
            },
        }
        match self.register(outcome, now) {
            Ok(()) => {},
            Err(_) => {
                if self.current_heartbeat_failures < i32::MAX {
                    self.current_heartbeat_failures = self.current_heartbeat_failures + 1;
                }
            },
        }
        Ok(())
    }

    /// The service's own report at second `now`, whose text is `now_text`.
    pub fn status(&self, now: i64, now_text: &str) -> (r: MonitoringStatus)
        ensures
            r@ == (MonitoringStatusView { now: Some(now), lines: own_lines(now_text@) }),
    {
        status(now, now_text)
    }
}

} // verus!
