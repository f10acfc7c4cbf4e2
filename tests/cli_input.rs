use h2o_k8s::cli::{
    deployment_name, h2o_spec_of, memory_verdict, python_connect_hint, r_connect_hint, validate_greater_than_zero,
    validate_int_greater_than_zero, validate_memory, validate_path, validate_percentage, CommandErrorKind,
    DeploymentSpecification, ExistingDeploymentSpecification, NewDeploymentSpecification, UserInputError,
};

#[test]
fn mod_validate_number_range() {
    assert!(validate_percentage("10".to_string()).is_ok());
    assert!(validate_percentage("101".to_string()).is_err());
}

#[test]
fn percentage_bounds() {
    assert!(validate_percentage("1".to_string()).is_ok());
    assert!(validate_percentage("100".to_string()).is_ok());
    assert_eq!(
        validate_percentage("0".to_string()),
        Err("Error: The number must be withing range <1,100>.".to_string())
    );
    assert_eq!(
        validate_percentage("ten".to_string()),
        Err("Error: 'ten' is not a whole number.".to_string())
    );
}

#[test]
fn positive_numbers() {
    assert!(validate_int_greater_than_zero("1".to_string()).is_ok());
    assert!(validate_int_greater_than_zero("+42".to_string()).is_ok());
    assert_eq!(
        validate_int_greater_than_zero("0".to_string()),
        Err("Error: The number provided must be greater than zero.".to_string())
    );
    assert!(validate_int_greater_than_zero("-3".to_string()).is_err());
    assert!(validate_int_greater_than_zero("".to_string()).is_err());
    assert!(validate_greater_than_zero("7".to_string()).is_ok());
    assert!(validate_greater_than_zero("x7".to_string()).is_err());
}

#[test]
fn memory_quantities() {
    assert!(validate_memory("256Mi".to_string()).is_ok());
    assert!(validate_memory("1Gi".to_string()).is_ok());
    assert!(validate_memory("1.5e3".to_string()).is_ok());
    let err = validate_memory("lots".to_string()).unwrap_err();
    assert!(err.starts_with("Memory requirement must match the following pattern: "));
    assert!(validate_memory("12 Gi".to_string()).is_err());
    assert!(validate_memory("".to_string()).is_err());
    assert!(validate_memory("Gi".to_string()).is_err());
    assert!(memory_verdict(true).is_ok());
    assert_eq!(memory_verdict(false).unwrap_err(), err);
}

#[test]
fn paths() {
    assert!(validate_path("/etc/kubeconfig".to_string(), true).is_ok());
    assert_eq!(
        validate_path("/nowhere".to_string(), false),
        Err("Invalid file path: '/nowhere'".to_string())
    );
}

#[test]
fn generated_and_given_names() {
    assert_eq!(deployment_name(Some("mine".to_string())), "mine");
    let generated = deployment_name(None);
    assert!(generated.starts_with("h2o-"));
    assert!(generated.len() > 4);
}

#[test]
fn new_deployment_becomes_spec() {
    let user = NewDeploymentSpecification::new(
        "c1".to_string(),
        None,
        Some("latest".to_string()),
        90,
        "256Mi".to_string(),
        2,
        3,
        None,
        None,
        None,
    );
    let spec = h2o_spec_of(user);
    assert_eq!(spec.nodes, 3);
    assert_eq!(spec.version, Some("latest".to_string()));
    assert_eq!(spec.resources.cpu, 2);
    assert_eq!(spec.resources.memory, "256Mi");
    assert_eq!(spec.resources.memory_percentage, Some(90));
    assert!(spec.custom_image.is_none());

    let user = NewDeploymentSpecification::new(
        "c2".to_string(),
        Some("ns".to_string()),
        None,
        50,
        "1Gi".to_string(),
        1,
        1,
        None,
        Some("example/x:1".to_string()),
        Some("/bin/sleep 3600".to_string()),
    );
    let spec = h2o_spec_of(user);
    let custom = spec.custom_image.unwrap();
    assert_eq!(custom.image, "example/x:1");
    assert_eq!(custom.command, Some("/bin/sleep 3600".to_string()));
}

#[test]
fn constructors_keep_fields() {
    let existing = ExistingDeploymentSpecification::new("c".to_string(), Some("n".to_string()), None);
    assert_eq!(existing.name, "c");
    assert_eq!(existing.namespace, Some("n".to_string()));
    let d = DeploymentSpecification::new("h2o-k8s-test-cluster".to_string(), "default".to_string(), 80, "256Mi".to_string(), 2, 2, None);
    assert_eq!(d.memory_percentage, 80);
    assert_eq!(d.num_h2o_nodes, 2);
    assert_eq!(UserInputError::new(CommandErrorKind::UnknownCommand).kind, CommandErrorKind::UnknownCommand);
}

#[test]
fn ingress_hints() {
    assert_eq!(
        python_connect_hint("1.2.3.4", "/c1"),
        "Python: 'h2o.connect(url=\"http://1.2.3.4:80/c1\")'"
    );
    assert_eq!(
        r_connect_hint("1.2.3.4", "/c1"),
        Some("R: 'h2o.connect(ip = \"1.2.3.4\", context_path = \"c1\", port=80)'".to_string())
    );
    assert_eq!(r_connect_hint("1.2.3.4", "c1"), None);
}
