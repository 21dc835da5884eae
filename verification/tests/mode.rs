//! Mode-switch validation, messages, and query parsing tests.

use razer_control::mode::{
    mode_query_result, parse_mode_query, plan_set_mode, set_mode_result, valid_mode, SetModePlan,
    ToolOutcome,
};

#[test]
fn allow_list_is_exactly_three_modes() {
    assert!(valid_mode("integrated"));
    assert!(valid_mode("hybrid"));
    assert!(valid_mode("nvidia"));
    assert!(!valid_mode("bogus"));
    assert!(!valid_mode(""));
    assert!(!valid_mode("Nvidia"));
}

#[test]
fn invalid_mode_is_rejected_without_any_invocation() {
    match plan_set_mode("bogus") {
        SetModePlan::Reject { message } => {
            assert_eq!(message, "Invalid mode 'bogus'. Use: integrated, hybrid, or nvidia");
        }
        SetModePlan::Invoke => panic!("an invalid mode must never reach the external tool"),
    }
}

#[test]
fn valid_mode_leads_to_an_invocation() {
    assert!(matches!(plan_set_mode("nvidia"), SetModePlan::Invoke));
    assert!(matches!(plan_set_mode("integrated"), SetModePlan::Invoke));
}

#[test]
fn missing_tool_reports_failure_with_detail() {
    let outcome = ToolOutcome::NotRun { error: String::from("No such file or directory") };
    let (ok, message) = set_mode_result("nvidia", &outcome);
    assert!(!ok);
    assert_eq!(message, "Failed to run envycontrol: No such file or directory");
}

#[test]
fn successful_invocation_notes_the_logout() {
    let outcome = ToolOutcome::Finished { success: true, output: String::new() };
    let (ok, message) = set_mode_result("nvidia", &outcome);
    assert!(ok);
    assert_eq!(message, "GPU mode set to 'nvidia'. Logout required to take effect.");
}

#[test]
fn failing_invocation_surfaces_the_tool_output() {
    let outcome =
        ToolOutcome::Finished { success: false, output: String::from("boot partition read-only\n") };
    let (ok, message) = set_mode_result("hybrid", &outcome);
    assert!(!ok);
    assert_eq!(message, "envycontrol failed: boot partition read-only\n");
}

#[test]
fn query_output_with_marker_yields_the_token() {
    assert_eq!(parse_mode_query(b"Current mode: hybrid\n"), "hybrid");
    assert_eq!(parse_mode_query(b"Current Mode: NVIDIA\n"), "nvidia");
}

#[test]
fn query_output_without_marker_is_trimmed_and_lowered() {
    assert_eq!(parse_mode_query(b"  HYBRID \n"), "hybrid");
    assert_eq!(parse_mode_query(b""), "");
}

#[test]
fn query_token_stops_at_a_second_marker() {
    assert_eq!(parse_mode_query(b"mode: integrated mode: stale"), "integrated");
}

#[test]
fn failed_query_reports_unknown() {
    assert_eq!(mode_query_result(None), "unknown");
    assert_eq!(mode_query_result(Some(&b"Current mode: hybrid\n".to_vec())), "hybrid");
}
