use browser_downloads::launch_params::{
    generate_id, merge_launch_args, BrowserLaunchConfig, LaunchParameter, ParameterCategory, ParameterTemplate,
    SecurityValidation, TemplateCategory,
};

fn param(flag: &str) -> LaunchParameter {
    LaunchParameter::new(flag.to_string(), flag.to_string(), ParameterCategory::Custom)
}

#[test]
fn parameter_builders_set_fields() {
    let p = param("--x").with_value("1".to_string()).with_description("d".to_string()).dangerous();
    assert_eq!(p.flag, "--x");
    assert_eq!(p.value, Some("1".to_string()));
    assert_eq!(p.description, "d");
    assert!(p.is_dangerous);
    assert!(p.is_enabled);
    assert_eq!(p.id.len(), 36);
    assert_eq!(generate_id().len(), 36);
    assert_ne!(generate_id(), generate_id());
}

#[test]
fn builtin_templates_in_order() {
    let ts = ParameterTemplate::get_builtin_templates();
    let ids: Vec<&str> = ts.iter().map(|t| t.id.as_str()).collect();
    assert_eq!(ids, vec!["testing", "development", "privacy", "performance", "automation", "security_testing"]);
    assert_eq!(ts[0].category, TemplateCategory::Testing);
    assert_eq!(ts[0].parameters[0].flag, "--disable-web-security");
    assert!(ts[0].parameters[0].is_dangerous);
    assert!(!ts[0].parameters[2].is_dangerous);
    assert_eq!(ts[3].parameters[1].value, Some("1024".to_string()));
    assert_eq!(ts[4].parameters[2].value, Some("9222".to_string()));
    assert!(ts.iter().all(|t| t.is_builtin && t.parameters.len() == 4));
}

#[test]
fn category_names_and_icons() {
    assert_eq!(ParameterCategory::Security.display_name(), "安全设置");
    assert_eq!(ParameterCategory::UI.icon(), "🎨");
    assert_eq!(TemplateCategory::Automation.display_name(), "自动化测试");
}

#[test]
fn command_args_skip_disabled_and_empty_values() {
    let mut c = BrowserLaunchConfig::new("n".to_string(), "d".to_string());
    c.add_parameter(param("--a").with_value("1".to_string()));
    c.add_parameter(param("--b").with_value(String::new()));
    let mut off = param("--c");
    off.is_enabled = false;
    c.add_parameter(off);
    c.add_parameter(param("--d").dangerous());
    assert_eq!(c.to_command_args(), vec!["--a", "1", "--b", "--d"]);
    assert_eq!(c.get_enabled_parameters().len(), 3);
    assert_eq!(c.dangerous_parameter_count(), 1);
    let id = c.parameters[0].id.clone();
    assert!(c.remove_parameter(&id));
    assert!(!c.remove_parameter(&id));
    assert_eq!(c.to_command_args(), vec!["--b", "--d"]);
}

#[test]
fn merged_args_keep_last_repeated_flag() {
    let mut a = BrowserLaunchConfig::new("a".to_string(), String::new());
    a.add_parameter(param("--x"));
    a.add_parameter(param("--port").with_value("1".to_string()));
    let mut b = BrowserLaunchConfig::new("b".to_string(), String::new());
    b.add_parameter(param("--port").with_value("1".to_string()));
    b.add_parameter(param("--x"));
    let mut off = BrowserLaunchConfig::new("off".to_string(), String::new());
    off.is_enabled = false;
    off.add_parameter(param("--never"));
    let merged = merge_launch_args(&vec![a, off, b]);
    assert_eq!(merged, vec!["1", "--port", "1", "--x"]);
}

#[test]
fn security_assessment_counts_and_warns() {
    let mut c = BrowserLaunchConfig::new("n".to_string(), String::new());
    for i in 0..4 {
        c.add_parameter(
            LaunchParameter::new(format!("p{}", i), format!("--p{}", i), ParameterCategory::Security)
                .with_description("risky".to_string())
                .dangerous(),
        );
    }
    let v = SecurityValidation::for_config(&c);
    assert!(!v.is_safe);
    assert_eq!(v.dangerous_parameter_count, 4);
    assert_eq!(v.warnings[0], "危险参数: p0 - risky");
    assert!(v.has_critical_warnings());
    let safe = SecurityValidation::for_config(&BrowserLaunchConfig::new("s".to_string(), String::new()));
    assert!(safe.is_safe);
    assert!(!safe.has_critical_warnings());
}
