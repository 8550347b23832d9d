//! What a service is to the API: how it is configured, and what it sends to
//! register itself.
use crate::sdk::client::Client;
use crate::sdk::error::Error;
use crate::sdk::models::MonitoringStatus;
use vstd::prelude::*;

verus! {

/// The version that a service reports.
pub const SNAPSHOT: &'static str = "Snapshot";

/// What a service sends to register itself, and what the API keeps of it.
#[derive(Debug)]
pub struct Service {
    pub id: i64,
    pub name: String,
    pub service_type: String,
    pub http_url: String,
    /// The second of the last heartbeat.
    pub last_heartbeat: Option<i64>,
    pub hash: String,
    pub token: String,
    pub group_id: i64,
    pub monitoring_status: MonitoringStatus,
    /// The configuration of the service, as JSON text.
    pub config: String,
    pub is_shared_infra: bool,
    pub version: String,
    pub up_to_date: bool,
}

/// What a service knows of itself and of the API.
#[derive(Debug)]
pub struct ServiceSDK {
    pub client: Client,
    pub hash: String,
    /// The second at which the service last registered.
    pub startup_time: Option<i64>,
    pub api: String,
    pub name: String,
    pub http_url: String,
    pub token: String,
    pub service_type: String,
    pub max_heartbeat_failures: i32,
    pub service_name: String,
}

/// What a service sends to register itself at second `now`: its name, type,
/// address and token, the health report and the configuration it was given,
/// and the version. The rest is for the API to fill in.
pub open spec fn is_registration_of(
    sent: Service,
    sdk: ServiceSDK,
    status: MonitoringStatus,
    config: String,
    now: i64,
) -> bool {
    &&& sent.name@ == sdk.name@
    &&& sent.service_type@ == sdk.service_type@
    &&& sent.http_url@ == sdk.http_url@
    &&& sent.last_heartbeat == Some(now)
    &&& sent.token@ == sdk.token@
    &&& sent.config == config
    &&& sent.monitoring_status == status
    &&& sent.version@ == SNAPSHOT@
    &&& sent.id == 0
    &&& sent.group_id == 0
    &&& sent.hash@.len() == 0
    &&& !sent.is_shared_infra
    &&& !sent.up_to_date
}

impl ServiceSDK {
    /// Whether the service knows nothing yet.
    pub open spec fn is_blank(&self) -> bool {
        &&& self.client.is_blank()
        &&& self.hash@.len() == 0
        &&& self.startup_time is None
        &&& self.api@.len() == 0
        &&& self.name@.len() == 0
        &&& self.http_url@.len() == 0
        &&& self.token@.len() == 0
        &&& self.service_type@.len() == 0
        &&& self.max_heartbeat_failures == 0
        &&& self.service_name@.len() == 0
    }

    /// A service that knows nothing yet.
    pub fn new() -> (r: ServiceSDK)
        ensures
            r.is_blank(),
    {
        ServiceSDK {
            client: Client::default(),
            hash: String::new(),
            startup_time: None,
            api: String::new(),
            name: String::new(),
            http_url: String::new(),
            token: String::new(),
            service_type: String::new(),
            max_heartbeat_failures: 0,
            service_name: String::new(),
        }
    }

    /// What the service sends to register itself at second `now`, with a
    /// health report and its configuration as JSON text.
    pub fn registration(&self, status: MonitoringStatus, config: String, now: i64) -> (r: Service)
        ensures
            is_registration_of(r, *self, status, config, now),
    {
        Service {
            id: 0,
            name: self.name.clone(),
            service_type: self.service_type.clone(),
            http_url: self.http_url.clone(),
            last_heartbeat: Some(now),
            hash: String::new(),
            token: self.token.clone(),
            group_id: 0,
            monitoring_status: status,
            config,
            is_shared_infra: false,
            version: SNAPSHOT.to_owned(),
            up_to_date: false,
        }
    }
}

/// What every service does for the API. The configuration is of the
/// service's own type.
pub trait ServiceTrait<T> {
    fn apply_configuration(&mut self, config: T) -> Result<(), Error>;

    fn check_configuration(&self, config: T) -> Result<(), Error>;

    fn heartbeat(&mut self, status: MonitoringStatus) -> Result<(), Error>;

    fn register(&mut self, status: MonitoringStatus, config: T) -> Result<(), Error>;

    fn status(&self) -> MonitoringStatus;
}

/// How one side of the API is reached.
#[derive(Debug)]
pub struct APITypeConfiguration {
    pub insecure: bool,
    pub url: String,
}

impl Default for APITypeConfiguration {
    fn default() -> (r: APITypeConfiguration)
        ensures
            !r.insecure,
            r.url@.len() == 0,
    {
        APITypeConfiguration { insecure: false, url: String::new() }
    }
}

impl Clone for APITypeConfiguration {
    fn clone(&self) -> (r: APITypeConfiguration)
        ensures
            r == *self,
    {
        APITypeConfiguration { insecure: self.insecure, url: self.url.clone() }
    }
}

/// How the API is reached.
#[derive(Debug)]
pub struct APIConfiguration {
    pub max_heartbeat_failures: i32,
    pub request_timeout: i32,
    pub token: String,
    pub http: APITypeConfiguration,
    pub grpc: APITypeConfiguration,
}

impl Default for APIConfiguration {
    fn default() -> (r: APIConfiguration)
        ensures
            r.max_heartbeat_failures == 0,
            r.request_timeout == 0,
            r.token@.len() == 0,
            !r.http.insecure,
            r.http.url@.len() == 0,
            !r.grpc.insecure,
            r.grpc.url@.len() == 0,
    {
        APIConfiguration {
            max_heartbeat_failures: 0,
            request_timeout: 0,
            token: String::new(),
            http: APITypeConfiguration::default(),
            grpc: APITypeConfiguration::default(),
        }
    }
}

impl Clone for APIConfiguration {
    fn clone(&self) -> (r: APIConfiguration)
        ensures
            r == *self,
    {
        APIConfiguration {
            max_heartbeat_failures: self.max_heartbeat_failures,
            request_timeout: self.request_timeout,
            token: self.token.clone(),
            http: self.http.clone(),
            grpc: self.grpc.clone(),
        }
    }
}

} // verus!
