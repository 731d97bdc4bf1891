use cpu_sidecar::sampler::InspectorReport;
use cpu_sidecar::sampler::TickOutcome;
use cpu_sidecar::shared::SharedRegistry;

#[test]
fn fresh_cell_renders_default() {
    let shared = SharedRegistry::new();
    assert_eq!(
        shared.render(),
        "# HELP GRANDINE_TOTAL_CPU_PERCENTAGE Grandine CPU load usage measured in percentage\n\
         # TYPE GRANDINE_TOTAL_CPU_PERCENTAGE gauge\n\
         GRANDINE_TOTAL_CPU_PERCENTAGE 0\n"
    );
}

#[test]
fn publish_then_render() {
    let shared = SharedRegistry::new();
    let outcome = shared.publish(InspectorReport::Cpu("12.3".to_string()));
    assert_eq!(outcome, TickOutcome::Published);
    assert!(shared
        .render()
        .contains("GRANDINE_TOTAL_CPU_PERCENTAGE 12.3"));
}

#[test]
fn publish_not_found_is_fatal_and_keeps_state() {
    let shared = SharedRegistry::new();
    shared.publish(InspectorReport::Cpu("7.5".to_string()));
    let before = shared.render();
    let outcome = shared.publish(InspectorReport::NotFound);
    assert_eq!(outcome, TickOutcome::Fatal);
    assert_eq!(shared.render(), before);
}

#[test]
fn every_rendered_value_was_written() {
    let shared = SharedRegistry::new();
    let written: Vec<String> = (0..50).map(|i| format!("{}.5", i)).collect();
    for value in &written {
        for _ in 0..2 {
            let body = shared.render();
            let series = body
                .lines()
                .find(|l| l.starts_with("GRANDINE_TOTAL_CPU_PERCENTAGE "))
                .unwrap()
                .strip_prefix("GRANDINE_TOTAL_CPU_PERCENTAGE ")
                .unwrap()
                .to_string();
            assert!(series == "0" || written.contains(&series));
        }
        shared.publish(InspectorReport::Cpu(value.clone()));
    }
    assert!(shared
        .render()
        .contains("GRANDINE_TOTAL_CPU_PERCENTAGE 49.5"));
}
