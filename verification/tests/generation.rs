use restaurant_client::config::Config;
use restaurant_client::gen::{
    gen_add_orders_task, gen_all_tasks, gen_get_all_orders_task, gen_get_one_order_task,
    gen_remove_order_task, gen_single_task, gen_task_of_kind, numbered_orders, single_order_url,
    table_orders_url, TableOrdersRequest, TaskInfo, TaskKind,
};
use restaurant_client::text::{integer_text, natural_text};

fn limits(tables: i16, orders: u8, order_id: i32, tasks: i32, delay: u64) -> Config {
    Config::new(
        Some("http://example.test:8080".to_string()),
        Some(4),
        Some(delay),
        Some(tasks),
        Some(tables),
        Some(orders),
        Some(order_id),
    )
}

#[test]
fn test_select_task_kind() {
    let results: Vec<TaskKind> = (0..8).map(TaskKind::select).collect();

    assert_eq!(results[0], TaskKind::Add);
    assert_eq!(results[1], TaskKind::GetOne);
    assert_eq!(results[2], TaskKind::GetAll);
    assert_eq!(results[3], TaskKind::Remove);

    assert_eq!(results[4], TaskKind::Add);
    assert_eq!(results[5], TaskKind::GetOne);
    assert_eq!(results[6], TaskKind::GetAll);
    assert_eq!(results[7], TaskKind::Remove);
}

#[test]
fn test_gen_add_order_task() {
    let config = Config::default();
    let result = gen_add_orders_task(&config);

    assert_eq!(result.kind, TaskKind::Add);
    assert!((0..=config.get_max_tables()).contains(&result.table_id));

    let order = result.table_orders_request.unwrap();
    assert_eq!(order.table_id, result.table_id);

    assert!(order.orders.len() > 0);
    assert!(order.orders.len() <= config.get_max_orders_per_request() as usize);
}

#[test]
fn test_gen_get_all_task() {
    let config = Config::default();
    let result = gen_get_all_orders_task(&config);

    assert_eq!(result.kind, TaskKind::GetAll);
    assert!((0..=config.get_max_tables()).contains(&result.table_id));
}

#[test]
fn test_get_one_task() {
    let config = Config::default();
    let result = gen_get_one_order_task(&config);

    assert_eq!(result.kind, TaskKind::GetOne);
    assert!((0..=config.get_max_tables()).contains(&result.table_id));
    assert!((0..=config.get_max_order_id()).contains(&result.order_id.unwrap()));
}

#[test]
fn test_remove_task() {
    let config = Config::default();
    let result = gen_remove_order_task(&config);

    assert_eq!(result.kind, TaskKind::Remove);
    assert!((0..=config.get_max_tables()).contains(&result.table_id));
    assert!((0..=config.get_max_order_id()).contains(&result.order_id.unwrap()));
}

#[test]
fn select_repeats_every_four_indices() {
    for index in 0u8..=251 {
        assert_eq!(TaskKind::select(index), TaskKind::select(index + 4));
    }
    assert_eq!(TaskKind::select(255), TaskKind::Remove);
}

#[test]
fn decimal_text_of_integers() {
    assert_eq!(natural_text(0), "0");
    assert_eq!(natural_text(7), "7");
    assert_eq!(natural_text(10), "10");
    assert_eq!(natural_text(1234567890), "1234567890");
    assert_eq!(natural_text(u64::MAX), "18446744073709551615");
    assert_eq!(integer_text(0), "0");
    assert_eq!(integer_text(-1), "-1");
    assert_eq!(integer_text(-32768), "-32768");
    assert_eq!(integer_text(i64::MAX), "9223372036854775807");
    assert_eq!(integer_text(i64::MIN), "-9223372036854775808");
}

#[test]
fn urls_are_composed_from_the_templates() {
    assert_eq!(
        table_orders_url("http://localhost:3000", 12),
        "http://localhost:3000/api/v1/tables/12/orders"
    );
    assert_eq!(
        single_order_url("http://localhost:3000", 12, 345),
        "http://localhost:3000/api/v1/tables/12/orders/345"
    );
    assert_eq!(table_orders_url("", -5), "/api/v1/tables/-5/orders");
    assert_eq!(single_order_url("h", 0, -9), "h/api/v1/tables/0/orders/-9");
}

#[test]
fn order_requests_collect_their_lines() {
    let mut request = TableOrdersRequest::new(3);
    assert_eq!(request.table_id, 3);
    assert!(request.orders.is_empty());
    request.add_order("soup", "hot");
    request.add_order_without_note("bread");
    assert_eq!(request.table_id, 3);
    assert_eq!(request.orders.len(), 2);
    assert_eq!(request.orders[0].item, "soup");
    assert_eq!(request.orders[0].note, Some("hot".to_string()));
    assert_eq!(request.orders[1].item, "bread");
    assert_eq!(request.orders[1].note, None);
}

#[test]
fn numbered_orders_name_each_line() {
    let request = numbered_orders(42, 3);
    assert_eq!(request.table_id, 42);
    assert_eq!(request.orders.len(), 3);
    for i in 0..3 {
        assert_eq!(request.orders[i].item, format!("item-42-{}", i));
        assert_eq!(request.orders[i].note, Some(format!("note-42-{}", i)));
    }
    let none = numbered_orders(1, 0);
    assert!(none.orders.is_empty());
    let many = numbered_orders(7, 255);
    assert_eq!(many.orders.len(), 255);
    assert_eq!(many.orders[254].item, "item-7-254");
}

#[test]
fn tasks_with_a_given_delay_are_exact() {
    let config = limits(5, 5, 5, 5, 9);
    let add = TaskInfo::add_task_with_delay(2, numbered_orders(2, 1), &config, 4);
    assert_eq!(add.kind, TaskKind::Add);
    assert_eq!(add.table_id, 2);
    assert_eq!(add.order_id, None);
    assert_eq!(add.table_orders_request.as_ref().unwrap().orders.len(), 1);
    assert_eq!(add.endpoint_url, "http://example.test:8080/api/v1/tables/2/orders");
    assert_eq!(add.delay_time, 4);

    let all = TaskInfo::get_all_task_with_delay(3, &config, 0);
    assert_eq!(all.kind, TaskKind::GetAll);
    assert_eq!(all.table_id, 3);
    assert_eq!(all.order_id, None);
    assert!(all.table_orders_request.is_none());
    assert_eq!(all.endpoint_url, "http://example.test:8080/api/v1/tables/3/orders");
    assert_eq!(all.delay_time, 0);

    let one = TaskInfo::get_one_task_with_delay(3, 17, &config, 9);
    assert_eq!(one.kind, TaskKind::GetOne);
    assert_eq!(one.table_id, 3);
    assert_eq!(one.order_id, Some(17));
    assert!(one.table_orders_request.is_none());
    assert_eq!(one.endpoint_url, "http://example.test:8080/api/v1/tables/3/orders/17");
    assert_eq!(one.delay_time, 9);

    let remove = TaskInfo::remove_task_with_delay(1, 8, &config, 2);
    assert_eq!(remove.kind, TaskKind::Remove);
    assert_eq!(remove.table_id, 1);
    assert_eq!(remove.order_id, Some(8));
    assert!(remove.table_orders_request.is_none());
    assert_eq!(remove.endpoint_url, "http://example.test:8080/api/v1/tables/1/orders/8");
    assert_eq!(remove.delay_time, 2);
}

#[test]
fn new_tasks_draw_their_delay_within_the_bound() {
    let config = limits(5, 5, 5, 5, 3);
    for _ in 0..200 {
        let task = TaskInfo::new_get_all_task(4, &config);
        assert!(task.delay_time <= 3);
        assert_eq!(task.kind, TaskKind::GetAll);
        assert_eq!(task.endpoint_url, "http://example.test:8080/api/v1/tables/4/orders");
    }
    let still = Config::default();
    let add = TaskInfo::new_add_task(1, TableOrdersRequest::new(1), &still);
    assert_eq!(add.delay_time, 0);
    assert_eq!(add.endpoint_url, "http://localhost:3000/api/v1/tables/1/orders");
    let one = TaskInfo::new_get_one_task(2, 3, &still);
    assert_eq!(one.delay_time, 0);
    assert_eq!(one.order_id, Some(3));
    assert_eq!(one.endpoint_url, "http://localhost:3000/api/v1/tables/2/orders/3");
    let remove = TaskInfo::new_remove_task(2, 3, &still);
    assert_eq!(remove.delay_time, 0);
    assert_eq!(remove.kind, TaskKind::Remove);
    assert_eq!(remove.endpoint_url, "http://localhost:3000/api/v1/tables/2/orders/3");
}

#[test]
fn delay_does_not_change_between_reads() {
    let config = limits(5, 5, 5, 5, 1000);
    let task = TaskInfo::new_get_all_task(1, &config);
    let first = task.delay_time;
    for _ in 0..10 {
        assert_eq!(task.delay_time, first);
    }
}

fn check_generated(task: &TaskInfo, config: &Config) {
    assert!(task.delay_time <= config.get_max_delay_time_in_secs());
    let endpoint = config.get_endpoint();
    match task.kind {
        TaskKind::Add => {
            assert!(1 <= task.table_id && task.table_id <= config.get_max_tables());
            assert_eq!(task.order_id, None);
            let body = task.table_orders_request.as_ref().unwrap();
            assert_eq!(body.table_id, task.table_id);
            assert!(1 <= body.orders.len());
            assert!(body.orders.len() <= config.get_max_orders_per_request() as usize);
            for (i, line) in body.orders.iter().enumerate() {
                assert_eq!(line.item, format!("item-{}-{}", task.table_id, i));
                assert_eq!(line.note, Some(format!("note-{}-{}", task.table_id, i)));
            }
            assert_eq!(
                task.endpoint_url,
                format!("{}/api/v1/tables/{}/orders", endpoint, task.table_id)
            );
        }
        TaskKind::GetAll => {
            assert!(1 <= task.table_id && task.table_id <= config.get_max_tables());
            assert_eq!(task.order_id, None);
            assert!(task.table_orders_request.is_none());
            assert_eq!(
                task.endpoint_url,
                format!("{}/api/v1/tables/{}/orders", endpoint, task.table_id)
            );
        }
        TaskKind::GetOne => {
            assert!(1 <= task.table_id && task.table_id <= config.get_max_tables());
            let order_id = task.order_id.unwrap();
            assert!(1 <= order_id && order_id <= config.get_max_order_id());
            assert!(task.table_orders_request.is_none());
            assert_eq!(
                task.endpoint_url,
                format!("{}/api/v1/tables/{}/orders/{}", endpoint, task.table_id, order_id)
            );
        }
        TaskKind::Remove => {
            assert_eq!(task.table_id, 1);
            let order_id = task.order_id.unwrap();
            assert!(1 <= order_id && order_id <= config.get_max_order_id());
            assert!(task.table_orders_request.is_none());
            assert_eq!(
                task.endpoint_url,
                format!("{}/api/v1/tables/1/orders/{}", endpoint, order_id)
            );
        }
    }
}

#[test]
fn generated_tasks_stay_within_the_limits() {
    let config = limits(7, 4, 9, 400, 2);
    let tasks = gen_all_tasks(&config);
    assert_eq!(tasks.len(), 400);
    for task in tasks.iter() {
        check_generated(task, &config);
    }
    let defaults = Config::default();
    let tasks = gen_all_tasks(&defaults);
    assert_eq!(tasks.len(), 100);
    for task in tasks.iter() {
        check_generated(task, &defaults);
    }
}

#[test]
fn generated_tasks_of_each_kind() {
    let config = limits(3, 2, 6, 1, 0);
    for index in 0u8..40 {
        let task = gen_task_of_kind(index, &config);
        assert_eq!(task.kind, TaskKind::select(index));
        check_generated(&task, &config);
    }
}

#[test]
fn generated_kinds_and_ids_vary() {
    let config = limits(1000, 200, 100000, 1, 0);
    let mut kinds: Vec<TaskKind> = Vec::new();
    let mut tables: Vec<i16> = Vec::new();
    for _ in 0..400 {
        let task = gen_single_task(&config);
        check_generated(&task, &config);
        if !kinds.contains(&task.kind) {
            kinds.push(task.kind);
        }
        if !tables.contains(&task.table_id) {
            tables.push(task.table_id);
        }
    }
    assert_eq!(kinds.len(), 4);
    assert!(tables.len() > 2);
}

#[test]
fn generator_output_length_is_the_configured_number() {
    assert_eq!(gen_all_tasks(&limits(3, 3, 3, 0, 0)).len(), 0);
    assert_eq!(gen_all_tasks(&limits(3, 3, 3, 1, 0)).len(), 1);
    assert_eq!(gen_all_tasks(&limits(3, 3, 3, 37, 0)).len(), 37);
    assert_eq!(gen_all_tasks(&limits(3, 3, 3, -5, 0)).len(), 0);
    // With no task to generate the other limits are never read.
    assert_eq!(gen_all_tasks(&limits(0, 0, 0, 0, 0)).len(), 0);
}

#[test]
fn single_table_single_line_add_tasks() {
    let config = limits(1, 1, 50, 10, 0);
    for _ in 0..50 {
        let task = gen_add_orders_task(&config);
        assert_eq!(task.kind, TaskKind::Add);
        assert_eq!(task.table_id, 1);
        let body = task.table_orders_request.unwrap();
        assert_eq!(body.table_id, 1);
        assert_eq!(body.orders.len(), 1);
        assert_eq!(body.orders[0].item, "item-1-0");
        assert_eq!(body.orders[0].note, Some("note-1-0".to_string()));
    }
}

#[test]
fn remove_tasks_address_the_first_table() {
    let config = limits(90, 3, 4, 10, 0);
    for _ in 0..100 {
        let task = gen_remove_order_task(&config);
        assert_eq!(task.table_id, 1);
        let order_id = task.order_id.unwrap();
        assert!(1 <= order_id && order_id <= 4);
    }
}
