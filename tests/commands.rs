use app_commands::calc::calculate;
use app_commands::decimal::{push_decimal, push_signed_decimal};
use app_commands::greeting::greet;
use app_commands::hardware::{get_hardware_info, hardware_info_from, SystemSnapshot};
use app_commands::monitor::{Channel, Monitor, MONITOR_TICKS};

fn calc(a: i32, b: i32, op: &str) -> Result<i32, String> {
    calculate(a, b, &op.to_string(), 0).map(|c| c.result)
}

#[test]
fn divide_rounds_toward_zero() {
    assert_eq!(calc(10, 3, "divide"), Ok(3));
    assert_eq!(calc(-7, 2, "divide"), Ok(-3));
    assert_eq!(calc(7, -2, "divide"), Ok(-3));
    assert_eq!(calc(-7, -2, "divide"), Ok(3));
}

#[test]
fn divide_by_zero_is_refused() {
    assert_eq!(calc(5, 0, "divide"), Err("Cannot divide by zero".to_string()));
    assert_eq!(calc(0, 0, "divide"), Err("Cannot divide by zero".to_string()));
}

#[test]
fn unknown_operation_is_refused() {
    assert_eq!(calc(2, 2, "pow"), Err("Unknown operation: pow".to_string()));
    assert_eq!(calc(2, 2, ""), Err("Unknown operation: ".to_string()));
    assert_eq!(calc(2, 0, "Add"), Err("Unknown operation: Add".to_string()));
}

#[test]
fn four_operations() {
    assert_eq!(calc(7, 5, "add"), Ok(12));
    assert_eq!(calc(7, 5, "subtract"), Ok(2));
    assert_eq!(calc(-4, 3, "multiply"), Ok(-12));
    assert_eq!(calc(9, 0, "add"), Ok(9));
    assert_eq!(calc(9, 0, "multiply"), Ok(0));
}

#[test]
fn results_wrap_at_32_bits() {
    assert_eq!(calc(i32::MAX, 1, "add"), Ok(i32::MIN));
    assert_eq!(calc(i32::MIN, 1, "subtract"), Ok(i32::MAX));
    assert_eq!(calc(65536, 65536, "multiply"), Ok(0));
    assert_eq!(calc(i32::MIN, -1, "divide"), Ok(i32::MIN));
}

#[test]
fn calculation_carries_timestamp_and_description() {
    let c = calculate(-4, 3, &"multiply".to_string(), 1_700_000_000_123).unwrap();
    assert_eq!(c.result, -12);
    assert_eq!(c.timestamp, 1_700_000_000_123);
    assert_eq!(c.description, "Operation: -4 multiply 3");
    let d = calculate(i32::MIN, 0, &"add".to_string(), 0).unwrap();
    assert_eq!(d.description, "Operation: -2147483648 add 0");
}

#[test]
fn decimal_text() {
    let mut s = String::from("n=");
    push_decimal(&mut s, 0);
    assert_eq!(s, "n=0");
    let mut t = String::new();
    push_decimal(&mut t, u128::MAX);
    assert_eq!(t, u128::MAX.to_string());
    let mut u = String::new();
    push_signed_decimal(&mut u, -105);
    assert_eq!(u, "-105");
    let mut v = String::new();
    push_signed_decimal(&mut v, i32::MAX);
    assert_eq!(v, "2147483647");
}

#[test]
fn greeting_embeds_epoch() {
    assert_eq!(greet(1_700_000_000_123), "Hello world from Rust! Current epoch: 1700000000123");
    assert_eq!(greet(0), "Hello world from Rust! Current epoch: 0");
}

#[test]
fn summary_of_full_snapshot() {
    let snap = SystemSnapshot {
        cpu_brands: vec!["Ryzen 7".to_string(), "Ryzen 7".to_string()],
        total_memory: 8 * 1024 * 1024 * 1024,
        free_memory: 3 * 1024 * 1024 + 1023,
        os_name: Some("Ubuntu".to_string()),
        os_version: Some("24.04".to_string()),
        host_name: Some("desk".to_string()),
    };
    let info = hardware_info_from(&snap);
    assert_eq!(info.cpu, "Ryzen 7");
    assert_eq!(info.memory_total, 8192);
    assert_eq!(info.memory_free, 3);
    assert_eq!(info.operating_system, "Ubuntu 24.04");
    assert_eq!(info.hostname, "desk");
    assert_eq!(info.cores, 2);
    assert!(info.cores >= 1 && info.memory_total >= info.memory_free);
}

#[test]
fn summary_of_empty_snapshot() {
    let snap = SystemSnapshot {
        cpu_brands: vec![],
        total_memory: 0,
        free_memory: 0,
        os_name: None,
        os_version: Some("13".to_string()),
        host_name: None,
    };
    let info = hardware_info_from(&snap);
    assert_eq!(info.cpu, "Unknown CPU");
    assert_eq!(info.memory_total, 0);
    assert_eq!(info.memory_free, 0);
    assert_eq!(info.operating_system, " 13");
    assert_eq!(info.hostname, "Unknown");
    assert_eq!(info.cores, 0);
}

#[test]
fn hardware_info_of_this_host() {
    let info = get_hardware_info().unwrap();
    assert!(info.cores >= 1);
    assert!(info.memory_total >= info.memory_free);
    assert!(!info.cpu.is_empty());
    assert!(info.operating_system.contains(' '));
}

#[test]
fn monitor_publishes_ten_records_twice() {
    let mut m = Monitor::new();
    let mut all = Vec::new();
    for k in 0..15u128 {
        all.extend(m.step(1000 + k));
    }
    assert!(m.is_finished());
    assert_eq!(all.len(), 20);
    for (i, e) in all.iter().enumerate() {
        let tick = (i / 2) as u64;
        let channel = if i % 2 == 0 { Channel::Global } else { Channel::View };
        assert_eq!(e.channel, channel);
        assert_eq!(e.status.id, tick);
        assert_eq!(e.status.memory_usage, 100 + tick * 10);
        assert_eq!(e.status.cpu_usage_tenths, tick % 10);
        assert_eq!(e.status.timestamp, 1000 + tick as u128);
    }
    assert_eq!(all.iter().filter(|e| e.channel == Channel::Global).count(), 10);
    assert_eq!(all.iter().filter(|e| e.channel == Channel::View).count(), 10);
    assert!(m.step(99).is_empty());
    assert_eq!(MONITOR_TICKS, 10);
}

#[test]
fn monitor_not_finished_midway() {
    let mut m = Monitor::new();
    assert!(!m.is_finished());
    for _ in 0..9 {
        assert_eq!(m.step(0).len(), 2);
    }
    assert!(!m.is_finished());
    let last = m.step(0);
    assert_eq!(last[0].status.id, 9);
    assert!(m.is_finished());
}

#[test]
fn event_names() {
    assert_eq!(Channel::Global.event_name(), "process-status");
    assert_eq!(Channel::View.event_name(), "window-process-status");
}
