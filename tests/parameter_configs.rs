use browser_downloads::launch_params::{LaunchParameter, ParameterCategory, TemplateCategory};
use browser_downloads::parameter_manager::ParameterManager;

fn flag(f: &str) -> LaunchParameter {
    LaunchParameter::new(f.to_string(), f.to_string(), ParameterCategory::Custom)
}

#[test]
fn configs_are_created_listed_and_filtered() {
    let mut pm = ParameterManager::new();
    let global = pm.create_config("g".to_string(), "global".to_string(), None).unwrap();
    let own = pm.create_config("o".to_string(), "own".to_string(), Some("b1".to_string())).unwrap();
    let _other = pm.create_config("x".to_string(), "other".to_string(), Some("b2".to_string())).unwrap();
    assert_eq!(pm.get_all_configs().unwrap().len(), 3);
    let mut for_b1: Vec<String> = pm.get_configs_for_browser("b1").unwrap().into_iter().map(|c| c.id).collect();
    for_b1.sort();
    let mut expected = vec![global.id.clone(), own.id.clone()];
    expected.sort();
    assert_eq!(for_b1, expected);
    assert_eq!(pm.get_config(&own.id).unwrap().unwrap().name, "o");
    assert!(pm.get_config("nope").unwrap().is_none());
    pm.delete_config(&own.id).unwrap();
    assert!(pm.get_config(&own.id).unwrap().is_none());
}

#[test]
fn one_default_per_owner() {
    let mut pm = ParameterManager::new();
    let a = pm.create_config("a".to_string(), String::new(), Some("b1".to_string())).unwrap();
    let b = pm.create_config("b".to_string(), String::new(), Some("b1".to_string())).unwrap();
    let g = pm.create_config("g".to_string(), String::new(), None).unwrap();
    assert!(pm.get_default_config(Some("b1")).unwrap().is_none());
    pm.set_as_default(&a.id).unwrap();
    pm.set_as_default(&g.id).unwrap();
    pm.set_as_default(&b.id).unwrap();
    assert!(!pm.get_config(&a.id).unwrap().unwrap().is_default);
    assert!(pm.get_config(&b.id).unwrap().unwrap().is_default);
    assert!(pm.get_config(&g.id).unwrap().unwrap().is_default);
    assert_eq!(pm.set_as_default("missing"), Err("Configuration not found".to_string()));
}

#[test]
fn launch_args_from_named_and_default_configs() {
    let mut pm = ParameterManager::new();
    let a = pm.create_config("a".to_string(), String::new(), Some("b1".to_string())).unwrap();
    pm.update_config_parameters(&a.id, vec![flag("--x"), flag("--port").with_value("1".to_string())]).unwrap();
    let b = pm.create_config("b".to_string(), String::new(), None).unwrap();
    pm.update_config_parameters(&b.id, vec![flag("--x"), flag("--y")]).unwrap();
    let args = pm
        .build_launch_args("b1", Some(vec![a.id.clone(), "missing".to_string(), b.id.clone()]))
        .unwrap();
    assert_eq!(args, vec!["--port", "1", "--x", "--y"]);
    assert!(pm.build_launch_args("b1", None).unwrap().is_empty());
    pm.set_as_default(&b.id).unwrap();
    assert_eq!(pm.build_launch_args("b9", None).unwrap(), vec!["--x", "--y"]);
    pm.set_as_default(&a.id).unwrap();
    // Both the global default and b1's own default apply to b1.
    let picked = pm.build_launch_args("b1", None).unwrap();
    assert!(picked == vec!["--x", "--port", "1"] || picked == vec!["--x", "--y"]);
    pm.delete_config(&b.id).unwrap();
    assert_eq!(pm.build_launch_args("b1", None).unwrap(), vec!["--x", "--port", "1"]);
    assert_eq!(
        pm.update_config_parameters("missing", Vec::new()),
        Err("Configuration not found".to_string())
    );
}

#[test]
fn templates_and_derived_configs() {
    let mut pm = ParameterManager::new();
    assert_eq!(pm.get_all_templates().len(), 6);
    let privacy = pm.get_templates_by_category(TemplateCategory::Privacy);
    assert_eq!(privacy.len(), 1);
    assert_eq!(privacy[0].id, "privacy");
    assert_eq!(pm.get_template("automation").unwrap().parameters.len(), 4);
    assert_eq!(pm.get_template("nope").unwrap_err(), "Template not found");
    let c = pm.create_config_from_template("testing", "t".to_string(), None).unwrap();
    assert_eq!(c.description, "基于模板 '测试模式' 创建");
    assert_eq!(c.parameters.len(), 4);
    assert!(pm.create_config_from_template("nope", "t".to_string(), None).is_err());
    let v = pm.validate_config_security(&c.id).unwrap();
    assert_eq!(v.dangerous_parameter_count, 3);
    assert!(!v.is_safe);
    assert!(!v.has_critical_warnings());
    assert_eq!(pm.validate_config_security("nope").unwrap_err(), "Configuration not found");
    pm.set_as_default(&c.id).unwrap();
    let d = pm.duplicate_config(&c.id, "copy".to_string()).unwrap();
    assert_ne!(d.id, c.id);
    assert_eq!(d.name, "copy");
    assert!(!d.is_default);
    assert_eq!(d.parameters.len(), 4);
    assert_eq!(pm.get_all_configs().unwrap().len(), 2);
    assert_eq!(pm.duplicate_config("nope", "x".to_string()).unwrap_err(), "Configuration not found");
}
