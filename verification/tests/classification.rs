use sdk_version::JdkCategory;

#[test]
fn test_nik_identification() {
    let categories = JdkCategory::from_identifier("25.0.1-nik");
    assert!(categories.contains(&JdkCategory::Nik));

    let categories = JdkCategory::from_identifier("25.0.1.fx-nik");
    assert!(categories.contains(&JdkCategory::Nik));
    assert!(categories.contains(&JdkCategory::JavaFx));

    let categories = JdkCategory::from_identifier("25.0.1-nik");
    assert!(categories.contains(&JdkCategory::Nik));

    let categories = JdkCategory::from_identifier("25.0.1-librca");
    assert!(!categories.contains(&JdkCategory::Nik));
    assert!(categories.contains(&JdkCategory::Jdk));

    let categories = JdkCategory::from_identifier("25.0.1-mandrel");
    assert!(categories.contains(&JdkCategory::Nik));

    let categories = JdkCategory::from_identifier("25.0.1-graal");
    assert!(categories.contains(&JdkCategory::Nik));

    let categories = JdkCategory::from_identifier("25.0.1-graalvm");
    assert!(categories.contains(&JdkCategory::Nik));

    let categories = JdkCategory::from_identifier("25.0.1-tem");
    assert!(!categories.contains(&JdkCategory::Nik));
    assert!(categories.contains(&JdkCategory::Jdk));

    let categories = JdkCategory::from_identifier("21.0.9.fx-librca");
    assert!(categories.contains(&JdkCategory::JavaFx));
    assert!(!categories.contains(&JdkCategory::Nik));
}

#[test]
fn test_empty_identifier() {
    let categories = JdkCategory::from_identifier("");
    assert_eq!(categories.len(), 1);
    assert!(categories.contains(&JdkCategory::Jdk));
}

#[test]
fn exact_categories_per_scenario() {
    assert_eq!(JdkCategory::from_identifier("25.0.1-nik"), vec![JdkCategory::Nik]);
    assert_eq!(
        JdkCategory::from_identifier("25.0.1.fx-nik"),
        vec![JdkCategory::JavaFx, JdkCategory::Nik],
    );
    assert_eq!(JdkCategory::from_identifier("25.0.1-librca"), vec![JdkCategory::Jdk]);
    assert_eq!(JdkCategory::from_identifier("25.0.1-mandrel"), vec![JdkCategory::Nik]);
    assert_eq!(JdkCategory::from_identifier("25.0.1-graal"), vec![JdkCategory::Nik]);
    assert_eq!(JdkCategory::from_identifier("25.0.1-graalvm"), vec![JdkCategory::Nik]);
    assert_eq!(JdkCategory::from_identifier("25.0.1-tem"), vec![JdkCategory::Jdk]);
    assert_eq!(JdkCategory::from_identifier("21.0.9.fx-librca"), vec![JdkCategory::JavaFx]);
    assert_eq!(JdkCategory::from_identifier(""), vec![JdkCategory::Jdk]);
}

#[test]
fn case_insensitive_classification() {
    // The uppercased identifier must classify exactly as the original; in
    // particular the lowercase folding has to happen, or `-NIK` would fall
    // back to the plain category.
    assert_eq!(JdkCategory::from_identifier("25.0.1-NIK"), vec![JdkCategory::Nik]);
    assert_eq!(
        JdkCategory::from_identifier("25.0.1.FX-NIK"),
        JdkCategory::from_identifier("25.0.1.fx-nik"),
    );
    assert_eq!(
        JdkCategory::from_identifier("25.0.1.Fx-GrAaL"),
        JdkCategory::from_identifier("25.0.1.fx-graal"),
    );
    assert_eq!(
        JdkCategory::from_identifier("25.0.1-TEM"),
        JdkCategory::from_identifier("25.0.1-tem"),
    );
}

#[test]
fn non_exclusive_categories() {
    let categories = JdkCategory::from_identifier("25.0.1.fx-nik");
    assert!(categories.contains(&JdkCategory::JavaFx));
    assert!(categories.contains(&JdkCategory::Nik));
    assert_eq!(categories.len(), 2);
}

#[test]
fn deterministic_classification() {
    let first = JdkCategory::from_identifier("25.0.1.fx-graalvm");
    let second = JdkCategory::from_identifier("25.0.1.fx-graalvm");
    assert_eq!(first, second);
}

#[test]
fn classification_never_empty() {
    let inputs = ["", "x", "25.0.1-amzn", "fx", "nik", "graal", ".fx", "-nik", "!!##@@"];
    for input in inputs {
        let categories = JdkCategory::from_identifier(input);
        assert!(!categories.is_empty());
    }
}

#[test]
fn marker_without_separator_does_not_count() {
    // The markers carry their leading separator: `fx` or `nik` alone, or with
    // the wrong separator, must fall back to the plain category.
    assert_eq!(JdkCategory::from_identifier("fx"), vec![JdkCategory::Jdk]);
    assert_eq!(JdkCategory::from_identifier("25.0.1-fx"), vec![JdkCategory::Jdk]);
    assert_eq!(JdkCategory::from_identifier("25.0.1.nik"), vec![JdkCategory::Jdk]);
    assert_eq!(JdkCategory::from_identifier("graalvm"), vec![JdkCategory::Jdk]);
}

#[test]
fn category_tags() {
    assert_eq!(JdkCategory::Jdk.tag(), "JDK");
    assert_eq!(JdkCategory::JavaFx.tag(), "JAVAFX");
    assert_eq!(JdkCategory::Nik.tag(), "NIK");
}
