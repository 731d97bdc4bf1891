use cpu_sidecar::metrics::check_value;
use cpu_sidecar::metrics::cpu_gauge;
use cpu_sidecar::metrics::Gauge;
use cpu_sidecar::metrics::Registry;
use cpu_sidecar::metrics::RegistryError;

fn gauge(name: &str, help: &str, value: &str) -> Gauge {
    Gauge {
        name: name.to_string(),
        help: help.to_string(),
        value: value.to_string(),
    }
}

#[test]
fn default_renders_zero() {
    let mut registry = Registry::new();
    registry.register(cpu_gauge()).unwrap();
    assert_eq!(
        registry.render_all(),
        "# HELP GRANDINE_TOTAL_CPU_PERCENTAGE Grandine CPU load usage measured in percentage\n\
         # TYPE GRANDINE_TOTAL_CPU_PERCENTAGE gauge\n\
         GRANDINE_TOTAL_CPU_PERCENTAGE 0\n"
    );
}

#[test]
fn register_returns_indices_in_order() {
    let mut registry = Registry::new();
    let a = registry.register(gauge("first_metric", "first", "1")).unwrap();
    let b = registry.register(gauge("second_metric", "second", "2")).unwrap();
    assert_eq!(a, 0);
    assert_eq!(b, 1);
    let body = registry.render_all();
    let first = body.find("first_metric 1\n").unwrap();
    let second = body.find("second_metric 2\n").unwrap();
    assert!(first < second);
}

#[test]
fn duplicate_name_rejected() {
    let mut registry = Registry::new();
    registry.register(gauge("cpu_pct", "usage", "0")).unwrap();
    let before = registry.render_all();
    let err = registry.register(gauge("cpu_pct", "another help", "7"));
    assert_eq!(err, Err(RegistryError::DuplicateName));
    assert_eq!(registry.render_all(), before);
}

#[test]
fn set_value_overwrites_only_that_gauge() {
    let mut registry = Registry::new();
    let a = registry.register(gauge("metric_a", "a", "0")).unwrap();
    registry.register(gauge("metric_b", "b", "0")).unwrap();
    registry.set_value(a, "99.5".to_string());
    let body = registry.render_all();
    assert!(body.contains("metric_a 99.5\n"));
    assert!(body.contains("metric_b 0\n"));
}

#[test]
fn render_is_idempotent() {
    let mut registry = Registry::new();
    registry.register(cpu_gauge()).unwrap();
    registry.set_value(0, "33.25".to_string());
    assert_eq!(registry.render_all(), registry.render_all());
}

#[test]
fn format_stable_for_any_value_text() {
    for value in ["0", "-7.5", "12345678.25", "0.001", "NaN", "inf", "250"] {
        let mut registry = Registry::new();
        registry.register(cpu_gauge()).unwrap();
        registry.set_value(0, value.to_string());
        let body = registry.render_all();
        let lines: Vec<&str> = body.lines().collect();
        assert_eq!(lines.len(), 3);
        assert_eq!(
            lines
                .iter()
                .filter(|l| l.starts_with("# HELP GRANDINE_TOTAL_CPU_PERCENTAGE"))
                .count(),
            1
        );
        assert_eq!(
            lines
                .iter()
                .filter(|l| l.starts_with("# TYPE GRANDINE_TOTAL_CPU_PERCENTAGE"))
                .count(),
            1
        );
        assert_eq!(
            lines
                .iter()
                .filter(|l| l.starts_with("GRANDINE_TOTAL_CPU_PERCENTAGE "))
                .count(),
            1
        );
        assert!(lines[0].starts_with("# HELP"));
        assert!(lines[1].starts_with("# TYPE"));
        assert_eq!(*lines[2], format!("GRANDINE_TOTAL_CPU_PERCENTAGE {value}"));
        assert!(body.ends_with('\n'));
    }
}

#[test]
fn check_value_accepts_sample_texts() {
    assert!(check_value("12.3"));
    assert!(check_value("45"));
    assert!(check_value("-0.5"));
    assert!(check_value("NaN"));
    assert!(check_value("inf"));
}

#[test]
fn check_value_rejects_unrenderable_texts() {
    assert!(!check_value(""));
    assert!(!check_value("# comment"));
    assert!(!check_value("1\n2"));
    assert!(!check_value("\n"));
}

#[test]
fn gauge_render_matches_registry_block() {
    let g = gauge("one_metric", "a single metric", "5.5");
    let block = g.render();
    let mut registry = Registry::new();
    registry.register(g).unwrap();
    assert_eq!(registry.render_all(), block);
}
