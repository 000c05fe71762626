use vstd::prelude::*;
use vstd::string::*;

verus! {

/// The limits a configuration holds, each absent or set.
pub struct ConfigView {
    pub endpoint: Option<Seq<char>>,
    pub max_threads: Option<i32>,
    pub max_delay_time_in_secs: Option<u64>,
    pub max_request_tasks: Option<i32>,
    pub max_tables: Option<i16>,
    pub max_orders_per_request: Option<u8>,
    pub max_order_id: Option<i32>,
}

/// Tunable limits of the client. A limit that is not set has a default.
#[derive(Debug, Clone)]
pub struct Config {
    /// Base URL of the target server.
    endpoint: Option<String>,
    /// Size of the worker pool.
    max_threads: Option<i32>,
    /// Inclusive upper bound of the delay of a task, in seconds.
    max_delay_time_in_secs: Option<u64>,
    /// Number of tasks to generate for a load run.
    max_request_tasks: Option<i32>,
    /// Inclusive upper bound of the table ids that are drawn.
    max_tables: Option<i16>,
    /// Inclusive upper bound of the order lines of one add request.
    max_orders_per_request: Option<u8>,
    /// Inclusive upper bound of the order ids that are drawn.
    max_order_id: Option<i32>,
}

impl View for Config {
    type V = ConfigView;

    closed spec fn view(&self) -> ConfigView {
        ConfigView {
            endpoint: match self.endpoint {
                Some(s) => Some(s@),
                None => None,
            },
            max_threads: self.max_threads,
            max_delay_time_in_secs: self.max_delay_time_in_secs,
            max_request_tasks: self.max_request_tasks,
            max_tables: self.max_tables,
            max_orders_per_request: self.max_orders_per_request,
            max_order_id: self.max_order_id,
        }
    }
}

/// The view of an optional string.
pub open spec fn text_view(text: Option<String>) -> Option<Seq<char>> {
    match text {
        Some(s) => Some(s@),
        None => None,
    }
}

impl Config {
    /// The endpoint in effect: the one set, or `http://localhost:3000`.
    pub open spec fn spec_endpoint(&self) -> Seq<char> {
        match self@.endpoint {
            Some(s) => s,
            None => "http://localhost:3000"@,
        }
    }

    /// The worker-pool size in effect: the one set, or 8.
    pub open spec fn spec_max_threads(&self) -> i32 {
        match self@.max_threads {
            Some(v) => v,
            None => 8i32,
        }
    }

    /// The order-line bound in effect: the one set, or 10.
    pub open spec fn spec_max_orders_per_request(&self) -> u8 {
        match self@.max_orders_per_request {
            Some(v) => v,
            None => 10u8,
        }
    }

    /// The delay bound in effect: the one set, or 0.
    pub open spec fn spec_max_delay_time_in_secs(&self) -> u64 {
        match self@.max_delay_time_in_secs {
            Some(v) => v,
            None => 0u64,
        }
    }

    /// The number of tasks in effect: the one set, or 100.
    pub open spec fn spec_max_request_tasks(&self) -> i32 {
        match self@.max_request_tasks {
            Some(v) => v,
            None => 100i32,
        }
    }

    /// The table bound in effect: the one set, or 100.
    pub open spec fn spec_max_tables(&self) -> i16 {
        match self@.max_tables {
            Some(v) => v,
            None => 100i16,
        }
    }

    /// The order-id bound in effect: the one set, or 100.
    pub open spec fn spec_max_order_id(&self) -> i32 {
        match self@.max_order_id {
            Some(v) => v,
            None => 100i32,
        }
    }

    /// Builds a configuration from the limits given; `None` leaves a limit
    /// at its default.
    pub fn new(
        endpoint: Option<String>,
        max_threads: Option<i32>,
        max_delay_time_in_secs: Option<u64>,
        max_request_tasks: Option<i32>,
        max_tables: Option<i16>,
        max_orders_per_request: Option<u8>,
        max_order_id: Option<i32>,
    ) -> (config: Config)
        ensures
            config@ == (ConfigView {
                endpoint: text_view(endpoint),
                max_threads,
                max_delay_time_in_secs,
                max_request_tasks,
                max_tables,
                max_orders_per_request,
                max_order_id,
            }),
    {
        Config {
            endpoint,
            max_threads,
            max_delay_time_in_secs,
            max_request_tasks,
            max_tables,
            max_orders_per_request,
            max_order_id,
        }
    }

    /// Removes the delay bound, so that the default of zero is in effect.
    /// Every other limit stays as it was.
    pub fn set_max_delay_time_to_zero(&mut self)
        ensures
            final(self)@ == (ConfigView { max_delay_time_in_secs: None, ..old(self)@ }),
            final(self).spec_max_delay_time_in_secs() == 0,
    {
        self.max_delay_time_in_secs = None
    }

    /// Returns the endpoint in effect.
    pub fn get_endpoint(&self) -> (endpoint: String)
        ensures
            endpoint@ == self.spec_endpoint(),
    {
        match &self.endpoint {
            Some(s) => s.clone(),
            None => String::from_str("http://localhost:3000"),
        }
    }

    /// Returns the worker-pool size in effect.
    pub fn get_max_threads(&self) -> (n: i32)
        ensures
            n == self.spec_max_threads(),
    {
        match self.max_threads {
            Some(v) => v,
            None => 8,
        }
    }

    /// Returns the order-line bound in effect.
    pub fn get_max_orders_per_request(&self) -> (n: u8)
        ensures
            n == self.spec_max_orders_per_request(),
    {
        match self.max_orders_per_request {
            Some(v) => v,
            None => 10,
        }
    }

    /// Returns the delay bound in effect.
    pub fn get_max_delay_time_in_secs(&self) -> (n: u64)
        ensures
            n == self.spec_max_delay_time_in_secs(),
    {
        match self.max_delay_time_in_secs {
            Some(v) => v,
            None => 0,
        }
    }

    /// Returns the number of tasks in effect.
    pub fn get_max_request_tasks(&self) -> (n: i32)
        ensures
            n == self.spec_max_request_tasks(),
    {
        match self.max_request_tasks {
            Some(v) => v,
            None => 100,
        }
    }

    /// Returns the table bound in effect.
    pub fn get_max_tables(&self) -> (n: i16)
        ensures
            n == self.spec_max_tables(),
    {
        match self.max_tables {
            Some(v) => v,
            None => 100,
        }
    }

    /// Returns the order-id bound in effect.
    pub fn get_max_order_id(&self) -> (n: i32)
        ensures
            n == self.spec_max_order_id(),
    {
        match self.max_order_id {
            Some(v) => v,
            None => 100,
        }
    }
}

impl Default for Config {
    /// A configuration with every limit at its default.
    fn default() -> (config: Config)
        ensures
            config@ == (ConfigView {
                endpoint: None,
                max_threads: None,
                max_delay_time_in_secs: None,
                max_request_tasks: None,
                max_tables: None,
                max_orders_per_request: None,
                max_order_id: None,
            }),
    {
        Config {
            endpoint: None,
            max_threads: None,
            max_delay_time_in_secs: None,
            max_request_tasks: None,
            max_tables: None,
            max_orders_per_request: None,
            max_order_id: None,
        }
    }
}

} // verus!
