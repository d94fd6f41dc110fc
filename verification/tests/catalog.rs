use embed_server::catalog::{get_model_infos, sort_names, str_le};

#[test]
fn two_directories_get_labels_and_distinct_ordinals() {
    let infos = get_model_infos(vec!["alpha".to_string(), "beta".to_string()]);
    assert_eq!(infos.len(), 2);
    assert_eq!(infos[0].label, "alpha");
    assert_eq!(infos[0].value, 1);
    assert_eq!(infos[1].label, "beta");
    assert_eq!(infos[1].value, 2);
    assert_ne!(infos[0].value, infos[1].value);
}

#[test]
fn catalog_is_sorted_whatever_the_enumeration_order() {
    let infos = get_model_infos(vec!["beta".to_string(), "alpha".to_string()]);
    assert_eq!(infos.len(), 2);
    assert_eq!(infos[0].label, "alpha");
    assert_eq!(infos[0].value, 1);
    assert_eq!(infos[1].label, "beta");
    assert_eq!(infos[1].value, 2);
}

#[test]
fn catalog_is_deterministic_across_enumeration_orders() {
    let a = get_model_infos(vec!["m3".to_string(), "m1".to_string(), "m2".to_string()]);
    let b = get_model_infos(vec!["m2".to_string(), "m3".to_string(), "m1".to_string()]);
    assert_eq!(a.len(), b.len());
    for (x, y) in a.iter().zip(b.iter()) {
        assert_eq!(x.label, y.label);
        assert_eq!(x.value, y.value);
    }
    assert_eq!(a[0].label, "m1");
    assert_eq!(a[1].label, "m2");
    assert_eq!(a[2].label, "m3");
    for (i, info) in a.iter().enumerate() {
        assert_eq!(info.value, (i + 1) as i32);
    }
}

#[test]
fn empty_directory_list_gives_empty_catalog() {
    let infos = get_model_infos(Vec::new());
    assert!(infos.is_empty());
}

#[test]
fn name_order_is_lexicographic_by_code_point() {
    assert!(str_le("alpha", "beta"));
    assert!(!str_le("beta", "alpha"));
    assert!(str_le("alpha", "alpha"));
    assert!(str_le("", "alpha"));
    assert!(!str_le("alpha", ""));
    assert!(str_le("alp", "alpha"));
    assert!(!str_le("alpha", "alp"));
    assert!(str_le("Zeta", "alpha"));
}

#[test]
fn sort_names_orders_and_keeps_every_name() {
    let sorted = sort_names(vec![
        "pear".to_string(),
        "apple".to_string(),
        "orange".to_string(),
        "apple".to_string(),
    ]);
    assert_eq!(
        sorted,
        vec![
            "apple".to_string(),
            "apple".to_string(),
            "orange".to_string(),
            "pear".to_string(),
        ]
    );
}
