use vstd::prelude::*;
use vstd::string::*;
use rand::Rng;
use crate::config::Config;
use crate::error::ClientError;
use crate::text::{decimal, decimal_is_injective, integer_text};

verus! {

/// The four operations of the order API that a task can stand for.
#[derive(Debug, Clone, Copy, PartialEq, Eq, Structural)]
pub enum TaskKind {
    Add,
    GetOne,
    GetAll,
    Remove,
}

impl TaskKind {
    /// The kind that an index stands for: the kinds in the order `Add`,
    /// `GetOne`, `GetAll`, `Remove`, repeated every four indices.
    pub open spec fn spec_select(index: int) -> TaskKind {
        if index % 4 == 0 {
            TaskKind::Add
        } else if index % 4 == 1 {
            TaskKind::GetOne
        } else if index % 4 == 2 {
            TaskKind::GetAll
        } else {
            TaskKind::Remove
        }
    }

    /// Returns the kind that `index` stands for.
    pub fn select(index: u8) -> (kind: TaskKind)
        ensures
            kind == TaskKind::spec_select(index as int),
    {
        match index % 4 {
            0 => TaskKind::Add,
            1 => TaskKind::GetOne,
            2 => TaskKind::GetAll,
            _ => TaskKind::Remove,
        }
    }
}

/// The kind of an index is the kind of the index four further on.
pub proof fn select_has_period_four(index: int)
    ensures
        TaskKind::spec_select(index) == TaskKind::spec_select(index + 4),
{
}

/// One order line as plain values: the item's name and an optional note.
pub struct OrderLineView {
    pub item: Seq<char>,
    pub note: Option<Seq<char>>,
}

/// One line of an add request: an item and an optional note.
#[derive(Debug, Clone)]
pub struct OrderRequest {
    pub item: String,
    pub note: Option<String>,
}

impl View for OrderRequest {
    type V = OrderLineView;

    open spec fn view(&self) -> OrderLineView {
        OrderLineView {
            item: self.item@,
            note: match self.note {
                Some(n) => Some(n@),
                None => None,
            },
        }
    }
}

/// The body of an add request as plain values.
pub struct TableOrdersView {
    pub table_id: i16,
    pub orders: Seq<OrderLineView>,
}

/// The body of an add request: a table and the order lines to add to it.
#[derive(Debug, Clone)]
pub struct TableOrdersRequest {
    pub table_id: i16,
    pub orders: Vec<OrderRequest>,
}

impl View for TableOrdersRequest {
    type V = TableOrdersView;

    open spec fn view(&self) -> TableOrdersView {
        TableOrdersView {
            table_id: self.table_id,
            orders: Seq::new(self.orders@.len(), |i: int| self.orders@[i]@),
        }
    }
}

impl TableOrdersRequest {
    /// A request for `table_id` without order lines.
    pub fn new(table_id: i16) -> (request: TableOrdersRequest)
        ensures
            request@ == (TableOrdersView { table_id, orders: Seq::empty() }),
    {
        let request = TableOrdersRequest { table_id, orders: Vec::new() };
        assert(request@.orders =~= Seq::empty());
        request
    }

    /// Appends a line with a note.
    pub fn add_order(&mut self, item: &str, note: &str)
        ensures
            final(self)@ == (TableOrdersView {
                table_id: old(self)@.table_id,
                orders: old(self)@.orders.push(OrderLineView { item: item@, note: Some(note@) }),
            }),
    {
        let line = OrderRequest { item: String::from_str(item), note: Some(String::from_str(note)) };
        self.orders.push(line);
        assert(self@.orders =~= old(self)@.orders.push(
            OrderLineView { item: item@, note: Some(note@) },
        ));
    }

    /// Appends a line without a note.
    pub fn add_order_without_note(&mut self, item: &str)
        ensures
            final(self)@ == (TableOrdersView {
                table_id: old(self)@.table_id,
                orders: old(self)@.orders.push(OrderLineView { item: item@, note: None }),
            }),
    {
        let line = OrderRequest { item: String::from_str(item), note: None };
        self.orders.push(line);
        assert(self@.orders =~= old(self)@.orders.push(OrderLineView { item: item@, note: None }));
    }
}

/// The URL of the orders of a table.
pub open spec fn table_url(endpoint: Seq<char>, table_id: int) -> Seq<char> {
    endpoint + "/api/v1/tables/"@ + decimal(table_id) + "/orders"@
}

/// The URL of one order of a table.
pub open spec fn order_url(endpoint: Seq<char>, table_id: int, order_id: int) -> Seq<char> {
    table_url(endpoint, table_id) + "/"@ + decimal(order_id)
}

/// Composes the URL of the orders of a table.
pub fn table_orders_url(endpoint: &str, table_id: i16) -> (url: String)
    ensures
        url@ == table_url(endpoint@, table_id as int),
{
    let mut url = String::from_str(endpoint);
    url.append("/api/v1/tables/");
    let id = integer_text(table_id as i64);
    url.append(id.as_str());
    url.append("/orders");
    url
}

/// Composes the URL of one order of a table.
pub fn single_order_url(endpoint: &str, table_id: i16, order_id: i32) -> (url: String)
    ensures
        url@ == order_url(endpoint@, table_id as int, order_id as int),
{
    let mut url = table_orders_url(endpoint, table_id);
    url.append("/");
    let id = integer_text(order_id as i64);
    url.append(id.as_str());
    url
}

/// Draws an integer between `low` and `high`, both included, by
/// `rand::Rng::gen_range` on the generator of the current thread. The
/// contract claims only that the number drawn lies in the range; the range
/// must not be empty, as `gen_range` panics on an empty one.
#[verifier::external_body]
fn random_between(low: u64, high: u64) -> (drawn: u64)
    requires
        low <= high,
    ensures
        low <= drawn <= high,
{
    rand::thread_rng().gen_range(low..=high)
}

/// One unit of work: a single request to the order API, fully resolved.
#[derive(Debug)]
pub struct TaskInfo {
    /// The operation.
    pub kind: TaskKind,
    /// The table addressed.
    pub table_id: i16,
    /// The order addressed, for `GetOne` and `Remove`.
    pub order_id: Option<i32>,
    /// The body to send, for `Add`.
    pub table_orders_request: Option<TableOrdersRequest>,
    /// The URL to send the request to.
    pub endpoint_url: String,
    /// Seconds to pause after the response was read.
    pub delay_time: u64,
}

impl TaskInfo {
    /// A task carries a body exactly if it adds orders, and an order id
    /// exactly if it addresses one order.
    pub open spec fn well_formed(&self) -> bool {
        &&& self.table_orders_request.is_some() <==> self.kind == TaskKind::Add
        &&& self.order_id.is_some() <==> (self.kind == TaskKind::GetOne || self.kind
            == TaskKind::Remove)
    }

    /// The add task for `table_id` with the given body and delay.
    pub fn add_task_with_delay(
        table_id: i16,
        table_orders: TableOrdersRequest,
        config: &Config,
        delay_time: u64,
    ) -> (task: TaskInfo)
        ensures
            task.kind == TaskKind::Add,
            task.table_id == table_id,
            task.order_id.is_none(),
            task.table_orders_request == Some(table_orders),
            task.endpoint_url@ == table_url(config.spec_endpoint(), table_id as int),
            task.delay_time == delay_time,
            task.well_formed(),
    {
        let endpoint = config.get_endpoint();
        let endpoint_url = table_orders_url(endpoint.as_str(), table_id);
        TaskInfo {
            kind: TaskKind::Add,
            table_id,
            order_id: None,
            table_orders_request: Some(table_orders),
            endpoint_url,
            delay_time,
        }
    }

    /// The task that gets all orders of `table_id`, with the given delay.
    pub fn get_all_task_with_delay(table_id: i16, config: &Config, delay_time: u64) -> (task:
        TaskInfo)
        ensures
            task.kind == TaskKind::GetAll,
            task.table_id == table_id,
            task.order_id.is_none(),
            task.table_orders_request.is_none(),
            task.endpoint_url@ == table_url(config.spec_endpoint(), table_id as int),
            task.delay_time == delay_time,
            task.well_formed(),
    {
        let endpoint = config.get_endpoint();
        let endpoint_url = table_orders_url(endpoint.as_str(), table_id);
        TaskInfo {
            kind: TaskKind::GetAll,
            table_id,
            order_id: None,
            table_orders_request: None,
            endpoint_url,
            delay_time,
        }
    }

    /// The task that gets order `order_id` of `table_id`, with the given
    /// delay.
    pub fn get_one_task_with_delay(
        table_id: i16,
        order_id: i32,
        config: &Config,
        delay_time: u64,
    ) -> (task: TaskInfo)
        ensures
            task.kind == TaskKind::GetOne,
            task.table_id == table_id,
            task.order_id == Some(order_id),
            task.table_orders_request.is_none(),
            task.endpoint_url@ == order_url(
                config.spec_endpoint(),
                table_id as int,
                order_id as int,
            ),
            task.delay_time == delay_time,
            task.well_formed(),
    {
        let endpoint = config.get_endpoint();
        let endpoint_url = single_order_url(endpoint.as_str(), table_id, order_id);
        TaskInfo {
            kind: TaskKind::GetOne,
            table_id,
            order_id: Some(order_id),
            table_orders_request: None,
            endpoint_url,
            delay_time,
        }
    }

    /// The task that removes order `order_id` of `table_id`, with the given
    /// delay.
    pub fn remove_task_with_delay(
        table_id: i16,
        order_id: i32,
        config: &Config,
        delay_time: u64,
    ) -> (task: TaskInfo)
        ensures
            task.kind == TaskKind::Remove,
            task.table_id == table_id,
            task.order_id == Some(order_id),
            task.table_orders_request.is_none(),
            task.endpoint_url@ == order_url(
                config.spec_endpoint(),
                table_id as int,
                order_id as int,
            ),
            task.delay_time == delay_time,
            task.well_formed(),
    {
        let endpoint = config.get_endpoint();
        let endpoint_url = single_order_url(endpoint.as_str(), table_id, order_id);
        TaskInfo {
            kind: TaskKind::Remove,
            table_id,
            order_id: Some(order_id),
            table_orders_request: None,
            endpoint_url,
            delay_time,
        }
    }

    /// The add task for `table_id` with the given body. Its delay is drawn
    /// here, once, between zero and the delay bound of `config`.
    pub fn new_add_task(table_id: i16, table_orders: TableOrdersRequest, config: &Config) -> (task:
        TaskInfo)
        ensures
            task.kind == TaskKind::Add,
            task.table_id == table_id,
            task.order_id.is_none(),
            task.table_orders_request == Some(table_orders),
            task.endpoint_url@ == table_url(config.spec_endpoint(), table_id as int),
            task.delay_time <= config.spec_max_delay_time_in_secs(),
            task.well_formed(),
    {
        let delay_time = random_between(0, config.get_max_delay_time_in_secs());
        TaskInfo::add_task_with_delay(table_id, table_orders, config, delay_time)
    }

    /// The task that gets all orders of `table_id`. Its delay is drawn here,
    /// once, between zero and the delay bound of `config`.
    pub fn new_get_all_task(table_id: i16, config: &Config) -> (task: TaskInfo)
        ensures
            task.kind == TaskKind::GetAll,
            task.table_id == table_id,
            task.order_id.is_none(),
            task.table_orders_request.is_none(),
            task.endpoint_url@ == table_url(config.spec_endpoint(), table_id as int),
            task.delay_time <= config.spec_max_delay_time_in_secs(),
            task.well_formed(),
    {
        let delay_time = random_between(0, config.get_max_delay_time_in_secs());
        TaskInfo::get_all_task_with_delay(table_id, config, delay_time)
    }

    /// The task that gets order `order_id` of `table_id`. Its delay is drawn
    /// here, once, between zero and the delay bound of `config`.
    pub fn new_get_one_task(table_id: i16, order_id: i32, config: &Config) -> (task: TaskInfo)
        ensures
            task.kind == TaskKind::GetOne,
            task.table_id == table_id,
            task.order_id == Some(order_id),
            task.table_orders_request.is_none(),
            task.endpoint_url@ == order_url(
                config.spec_endpoint(),
                table_id as int,
                order_id as int,
            ),
            task.delay_time <= config.spec_max_delay_time_in_secs(),
            task.well_formed(),
    {
        let delay_time = random_between(0, config.get_max_delay_time_in_secs());
        TaskInfo::get_one_task_with_delay(table_id, order_id, config, delay_time)
    }

    /// The task that removes order `order_id` of `table_id`. Its delay is
    /// drawn here, once, between zero and the delay bound of `config`.
    pub fn new_remove_task(table_id: i16, order_id: i32, config: &Config) -> (task: TaskInfo)
        ensures
            task.kind == TaskKind::Remove,
            task.table_id == table_id,
            task.order_id == Some(order_id),
            task.table_orders_request.is_none(),
            task.endpoint_url@ == order_url(
                config.spec_endpoint(),
                table_id as int,
                order_id as int,
            ),
            task.delay_time <= config.spec_max_delay_time_in_secs(),
            task.well_formed(),
    {
        let delay_time = random_between(0, config.get_max_delay_time_in_secs());
        TaskInfo::remove_task_with_delay(table_id, order_id, config, delay_time)
    }

    /// What encoding the body of the task comes to: the JSON text that the
    /// encoder produced, given as `encoded`, where the task has a body and
    /// the encoder succeeded; else a serialization error.
    pub open spec fn spec_json_string(&self, encoded: Option<String>) -> Result<
        String,
        ClientError,
    > {
        match (self.table_orders_request, encoded) {
            (Some(_), Some(json)) => Ok(json),
            _ => Err(ClientError::SerializationError),
        }
    }

    /// Returns the JSON text of the body of the task. `encoded` is what the
    /// JSON encoder made of the body, `None` where it failed. A task without
    /// a body has no JSON text.
    pub fn get_table_order_request_json_string(&self, encoded: Option<String>) -> (json: Result<
        String,
        ClientError,
    >)
        ensures
            json == self.spec_json_string(encoded),
    {
        match &self.table_orders_request {
            Some(_) => match encoded {
                Some(text) => Ok(text),
                None => Err(ClientError::SerializationError),
            },
            None => Err(ClientError::SerializationError),
        }
    }
}

/// The item name of line `index` of a generated add request for `table_id`.
pub open spec fn item_name(table_id: int, index: int) -> Seq<char> {
    "item-"@ + decimal(table_id) + "-"@ + decimal(index)
}

/// The note of line `index` of a generated add request for `table_id`.
pub open spec fn note_name(table_id: int, index: int) -> Seq<char> {
    "note-"@ + decimal(table_id) + "-"@ + decimal(index)
}

/// Line `index` of a generated add request for `table_id`.
pub open spec fn numbered_line(table_id: int, index: int) -> OrderLineView {
    OrderLineView { item: item_name(table_id, index), note: Some(note_name(table_id, index)) }
}

/// The generated add request for `table_id` with `count` lines: the lines
/// are numbered from zero, so that no two of them share a name.
pub open spec fn numbered_orders_view(table_id: i16, count: nat) -> TableOrdersView {
    TableOrdersView {
        table_id,
        orders: Seq::new(count, |i: int| numbered_line(table_id as int, i)),
    }
}

/// Writes `prefix`, the table id, a hyphen and the index.
fn numbered_name(prefix: &str, table_id: i16, index: u8) -> (name: String)
    ensures
        name@ == prefix@ + decimal(table_id as int) + "-"@ + decimal(index as int),
{
    let mut name = String::from_str(prefix);
    let table = integer_text(table_id as i64);
    name.append(table.as_str());
    name.append("-");
    let number = integer_text(index as i64);
    name.append(number.as_str());
    name
}

/// Builds the add request for `table_id` with `count` numbered lines.
pub fn numbered_orders(table_id: i16, count: u8) -> (request: TableOrdersRequest)
    ensures
        request@ == numbered_orders_view(table_id, count as nat),
{
    let mut request = TableOrdersRequest::new(table_id);
    let mut i: u8 = 0;
    while i < count
        invariant
            i <= count,
            request@.table_id == table_id,
            request@.orders =~= numbered_orders_view(table_id, i as nat).orders,
        decreases count - i,
    {
        let item = numbered_name("item-", table_id, i);
        let note = numbered_name("note-", table_id, i);
        request.add_order(item.as_str(), note.as_str());
        i = i + 1;
        assert(request@.orders =~= numbered_orders_view(table_id, i as nat).orders);
    }
    request
}

impl Config {
    /// The bounds from which ids and line counts are drawn each admit at
    /// least the value one.
    pub open spec fn can_generate(&self) -> bool {
        &&& self.spec_max_tables() >= 1
        &&& self.spec_max_orders_per_request() >= 1
        &&& self.spec_max_order_id() >= 1
    }

    /// Tells whether the bounds admit generation.
    pub fn bounds_admit_generation(&self) -> (admitted: bool)
        ensures
            admitted == self.can_generate(),
    {
        self.get_max_tables() >= 1 && self.get_max_orders_per_request() >= 1
            && self.get_max_order_id() >= 1
    }

    /// The number of tasks of a load run: the configured number, or none
    /// where that is negative.
    pub open spec fn task_count(&self) -> nat {
        if self.spec_max_request_tasks() > 0 {
            self.spec_max_request_tasks() as nat
        } else {
            0
        }
    }
}

/// What holds of a generated add task: its table id lies between one and
/// the table bound, and its body holds between one and the configured
/// bound of lines, numbered for that table.
pub open spec fn is_generated_add(task: TaskInfo, config: &Config) -> bool {
    &&& task.kind == TaskKind::Add
    &&& 1 <= task.table_id <= config.spec_max_tables()
    &&& task.order_id.is_none()
    &&& task.table_orders_request.is_some()
    &&& 1 <= task.table_orders_request.unwrap()@.orders.len()
        <= config.spec_max_orders_per_request()
    &&& task.table_orders_request.unwrap()@ == numbered_orders_view(
        task.table_id,
        task.table_orders_request.unwrap()@.orders.len(),
    )
    &&& task.endpoint_url@ == table_url(config.spec_endpoint(), task.table_id as int)
    &&& task.delay_time <= config.spec_max_delay_time_in_secs()
}

/// What holds of a generated get-all task: its table id lies between one
/// and the table bound.
pub open spec fn is_generated_get_all(task: TaskInfo, config: &Config) -> bool {
    &&& task.kind == TaskKind::GetAll
    &&& 1 <= task.table_id <= config.spec_max_tables()
    &&& task.order_id.is_none()
    &&& task.table_orders_request.is_none()
    &&& task.endpoint_url@ == table_url(config.spec_endpoint(), task.table_id as int)
    &&& task.delay_time <= config.spec_max_delay_time_in_secs()
}

/// What holds of a generated get-one task: its table id lies between one
/// and the table bound, its order id between one and the order-id bound.
pub open spec fn is_generated_get_one(task: TaskInfo, config: &Config) -> bool {
    &&& task.kind == TaskKind::GetOne
    &&& 1 <= task.table_id <= config.spec_max_tables()
    &&& task.order_id.is_some()
    &&& 1 <= task.order_id.unwrap() <= config.spec_max_order_id()
    &&& task.table_orders_request.is_none()
    &&& task.endpoint_url@ == order_url(
        config.spec_endpoint(),
        task.table_id as int,
        task.order_id.unwrap() as int,
    )
    &&& task.delay_time <= config.spec_max_delay_time_in_secs()
}

/// What holds of a generated remove task: its table id is one, its order
/// id lies between one and the order-id bound.
pub open spec fn is_generated_remove(task: TaskInfo, config: &Config) -> bool {
    &&& task.kind == TaskKind::Remove
    &&& task.table_id == 1
    &&& task.order_id.is_some()
    &&& 1 <= task.order_id.unwrap() <= config.spec_max_order_id()
    &&& task.table_orders_request.is_none()
    &&& task.endpoint_url@ == order_url(
        config.spec_endpoint(),
        1,
        task.order_id.unwrap() as int,
    )
    &&& task.delay_time <= config.spec_max_delay_time_in_secs()
}

/// What holds of every generated task, whatever was drawn.
pub open spec fn is_generated(task: TaskInfo, config: &Config) -> bool {
    match task.kind {
        TaskKind::Add => is_generated_add(task, config),
        TaskKind::GetOne => is_generated_get_one(task, config),
        TaskKind::GetAll => is_generated_get_all(task, config),
        TaskKind::Remove => is_generated_remove(task, config),
    }
}

/// Generates an add task: draws the table id and the number of lines, and
/// numbers the lines.
pub fn gen_add_orders_task(config: &Config) -> (task: TaskInfo)
    requires
        config.spec_max_tables() >= 1,
        config.spec_max_orders_per_request() >= 1,
    ensures
        is_generated_add(task, config),
{
    let table_id = random_between(1, config.get_max_tables() as u64) as i16;
    let num_orders = random_between(1, config.get_max_orders_per_request() as u64) as u8;
    let order = numbered_orders(table_id, num_orders);
    TaskInfo::new_add_task(table_id, order, config)
}

/// Generates a remove task: draws the order id; the table is always the
/// first.
pub fn gen_remove_order_task(config: &Config) -> (task: TaskInfo)
    requires
        config.spec_max_order_id() >= 1,
    ensures
        is_generated_remove(task, config),
{
    let order_id = random_between(1, config.get_max_order_id() as u64) as i32;
    TaskInfo::new_remove_task(1, order_id, config)
}

/// Generates a get-all task: draws the table id.
pub fn gen_get_all_orders_task(config: &Config) -> (task: TaskInfo)
    requires
        config.spec_max_tables() >= 1,
    ensures
        is_generated_get_all(task, config),
{
    let table_id = random_between(1, config.get_max_tables() as u64) as i16;
    TaskInfo::new_get_all_task(table_id, config)
}

/// Generates a get-one task: draws the table id and the order id, each on
/// its own.
pub fn gen_get_one_order_task(config: &Config) -> (task: TaskInfo)
    requires
        config.spec_max_tables() >= 1,
        config.spec_max_order_id() >= 1,
    ensures
        is_generated_get_one(task, config),
{
    let table_id = random_between(1, config.get_max_tables() as u64) as i16;
    let order_id = random_between(1, config.get_max_order_id() as u64) as i32;
    TaskInfo::new_get_one_task(table_id, order_id, config)
}

/// Generates the task of the kind that `index` stands for.
pub fn gen_task_of_kind(index: u8, config: &Config) -> (task: TaskInfo)
    requires
        config.can_generate(),
    ensures
        task.kind == TaskKind::spec_select(index as int),
        is_generated(task, config),
{
    match TaskKind::select(index) {
        TaskKind::Add => gen_add_orders_task(config),
        TaskKind::GetOne => gen_get_one_order_task(config),
        TaskKind::GetAll => gen_get_all_orders_task(config),
        TaskKind::Remove => gen_remove_order_task(config),
    }
}

/// Generates one task of a kind drawn among the four.
pub fn gen_single_task(config: &Config) -> (task: TaskInfo)
    requires
        config.can_generate(),
    ensures
        is_generated(task, config),
{
    let index = random_between(0, 3) as u8;
    gen_task_of_kind(index, config)
}

/// Generates the tasks of a load run: as many as `config` asks for, none
/// where that number is not positive.
pub fn gen_all_tasks(config: &Config) -> (tasks: Vec<TaskInfo>)
    requires
        config.spec_max_request_tasks() > 0 ==> config.can_generate(),
    ensures
        tasks@.len() == config.task_count(),
        config.spec_max_request_tasks() >= 0 ==> tasks@.len() == config.spec_max_request_tasks(),
        forall|i: int| 0 <= i < tasks@.len() ==> is_generated(#[trigger] tasks@[i], config),
{
    let count = config.get_max_request_tasks();
    let mut tasks: Vec<TaskInfo> = Vec::new();
    let mut id: i32 = 0;
    while id < count
        invariant
            count == config.spec_max_request_tasks(),
            count > 0 ==> config.can_generate(),
            0 <= id,
            count > 0 ==> id <= count,
            count <= 0 ==> id == 0,
            tasks@.len() == id,
            forall|i: int| 0 <= i < tasks@.len() ==> is_generated(#[trigger] tasks@[i], config),
        decreases count - id,
    {
        let task = gen_single_task(config);
        tasks.push(task);
        id = id + 1;
    }
    tasks
}

/// A generated task carries a body exactly if it adds orders, and an order
/// id exactly if it addresses one order.
pub proof fn generated_is_well_formed(task: TaskInfo, config: &Config)
    requires
        is_generated(task, config),
    ensures
        task.well_formed(),
{
}

/// The table id of a generated task lies between one and the table bound,
/// but for a remove task, whose table id is one.
pub proof fn generated_table_in_bounds(task: TaskInfo, config: &Config)
    requires
        is_generated(task, config),
    ensures
        task.kind != TaskKind::Remove ==> 1 <= task.table_id <= config.spec_max_tables(),
        task.kind == TaskKind::Remove ==> task.table_id == 1,
{
}

/// The order id of a generated get-one or remove task lies between one and
/// the order-id bound.
pub proof fn generated_order_in_bounds(task: TaskInfo, config: &Config)
    requires
        is_generated(task, config),
        task.kind == TaskKind::GetOne || task.kind == TaskKind::Remove,
    ensures
        task.order_id.is_some(),
        1 <= task.order_id.unwrap() <= config.spec_max_order_id(),
{
}

/// A generated add task holds at least one order line and no more than the
/// configured bound.
pub proof fn generated_line_count_in_bounds(task: TaskInfo, config: &Config)
    requires
        is_generated(task, config),
        task.kind == TaskKind::Add,
    ensures
        task.table_orders_request.is_some(),
        1 <= task.table_orders_request.unwrap()@.orders.len()
            <= config.spec_max_orders_per_request(),
        task.table_orders_request.unwrap()@.table_id == task.table_id,
{
}

/// Within one generated add request no two lines share an item name or a
/// note.
pub proof fn numbered_lines_are_distinct(table_id: int, first: int, second: int)
    requires
        first != second,
    ensures
        item_name(table_id, first) != item_name(table_id, second),
        note_name(table_id, first) != note_name(table_id, second),
{
    let item_front = "item-"@ + decimal(table_id) + "-"@;
    let note_front = "note-"@ + decimal(table_id) + "-"@;
    if item_name(table_id, first) == item_name(table_id, second) {
        assert(item_name(table_id, first).subrange(
            item_front.len() as int,
            item_name(table_id, first).len() as int,
        ) =~= decimal(first));
        assert(item_name(table_id, second).subrange(
            item_front.len() as int,
            item_name(table_id, second).len() as int,
        ) =~= decimal(second));
        decimal_is_injective(first, second);
    }
    if note_name(table_id, first) == note_name(table_id, second) {
        assert(note_name(table_id, first).subrange(
            note_front.len() as int,
            note_name(table_id, first).len() as int,
        ) =~= decimal(first));
        assert(note_name(table_id, second).subrange(
            note_front.len() as int,
            note_name(table_id, second).len() as int,
        ) =~= decimal(second));
        decimal_is_injective(first, second);
    }
}

} // verus!
