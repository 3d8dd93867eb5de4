use ayagami::model::ParsedModel;
use ayagami::version::Version;

#[test]
fn class_counts_per_version() {
    assert_eq!(ParsedModel::num_classes(Version::V3_0), 23);
    assert_eq!(ParsedModel::num_classes(Version::V3_3), 23);
    assert_eq!(ParsedModel::num_classes(Version::V4_0), 23);
    assert_eq!(ParsedModel::num_classes(Version::V4_2), 32);
    assert_eq!(ParsedModel::num_classes(Version::V5_0), 35);
    assert_eq!(ParsedModel::num_classes(Version::V5_3), 38);
}

#[test]
fn section_counts_per_version() {
    assert_eq!(ParsedModel::num_sections(Version::V3_0), 101);
    assert_eq!(ParsedModel::num_sections(Version::V3_3), 102);
    assert_eq!(ParsedModel::num_sections(Version::V4_0), 102);
    assert_eq!(ParsedModel::num_sections(Version::V4_2), 137);
    assert_eq!(ParsedModel::num_sections(Version::V5_0), 152);
    assert_eq!(ParsedModel::num_sections(Version::V5_3), 167);
}
