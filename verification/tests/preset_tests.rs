use webgpu_sandbox::preset::ScenePreset;
use webgpu_sandbox::web::CurrentQueryParameters;

#[test]
fn presets_name_their_bundled_assets() {
    assert_eq!(ScenePreset::StanfordBunny.model_name(), "stanford_bunny.glb");
    assert_eq!(ScenePreset::ChineseDragon.model_name(), "dragon.glb");
}

#[test]
fn query_parameter_selects_preset() {
    assert_eq!(ScenePreset::from_query(Some("2024")), ScenePreset::ChineseDragon);
    assert_eq!(ScenePreset::from_query(Some("2023")), ScenePreset::StanfordBunny);
    assert_eq!(ScenePreset::from_query(Some("anything")), ScenePreset::StanfordBunny);
    assert_eq!(ScenePreset::from_query(Some("")), ScenePreset::StanfordBunny);
    assert_eq!(ScenePreset::from_query(None), ScenePreset::StanfordBunny);
}

#[test]
fn default_preset_is_the_bunny() {
    assert_eq!(ScenePreset::default(), ScenePreset::StanfordBunny);
}

#[test]
fn query_value_strips_leading_question_marks() {
    assert_eq!(CurrentQueryParameters::value(Some("?2024")), Some("2024".to_owned()));
    assert_eq!(CurrentQueryParameters::value(Some("??a=1")), Some("a=1".to_owned()));
    assert_eq!(CurrentQueryParameters::value(Some("plain")), Some("plain".to_owned()));
    assert_eq!(CurrentQueryParameters::value(Some("???")), Some("".to_owned()));
    assert_eq!(CurrentQueryParameters::value(Some("")), Some("".to_owned()));
    assert_eq!(CurrentQueryParameters::value(None), None);
}

#[test]
fn query_value_keeps_interior_question_marks() {
    assert_eq!(CurrentQueryParameters::value(Some("?a?b")), Some("a?b".to_owned()));
}
