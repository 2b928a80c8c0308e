use gemtts::catalog::{
    canonical_voice_name, filter_languages, filter_tags, filter_text, filter_voices, languages,
    recipes, recommend_or_first, recommend_voices, search_tags, tags, unsupported_voice,
    voice_names, voices,
};
use gemtts::cli::TagCategory;
use gemtts::error::AppError;

#[test]
fn catalog_sizes() {
    assert_eq!(voices().len(), 30);
    assert_eq!(tags().len(), 28);
    assert_eq!(languages().len(), 47);
    assert_eq!(recipes().len(), 5);
    assert_eq!(voices()[0].name, "Achernar");
    assert_eq!(voices()[29].name, "Zubenelgenubi");
    assert_eq!(recipes()[1].voice_hints, &["Kore", "Puck", "Laomedeia"]);
}

#[test]
fn filter_text_ignores_ascii_case() {
    assert!(filter_text("Hello World", "WORLD"));
    assert!(filter_text("anything", ""));
    assert!(!filter_text("Hello", "help"));
}

#[test]
fn canonical_voice_names() {
    assert_eq!(canonical_voice_name("kore"), Some("Kore"));
    assert_eq!(canonical_voice_name("ZEPHYR"), Some("Zephyr"));
    assert_eq!(canonical_voice_name("Nope"), None);
    assert_eq!(canonical_voice_name(" Kore"), None);
    let names = voice_names();
    assert_eq!(names.len(), 30);
    assert_eq!(names[15], "Kore");
}

#[test]
fn unsupported_voice_lists_valid_voices() {
    match unsupported_voice("Bob") {
        AppError::InvalidInput(m) => {
            assert!(m.starts_with("unsupported Gemini TTS voice \"Bob\". Valid voices: Achernar, Achird, "));
            assert!(m.ends_with("Zephyr, Zubenelgenubi"));
        }
        other => panic!("unexpected {:?}", other),
    }
}

#[test]
fn recommends_by_score_then_name() {
    let names = |v: Vec<gemtts::catalog::Voice>| v.iter().map(|v| v.name).collect::<Vec<_>>();
    assert_eq!(names(recommend_voices("excited podcast host", 3)), vec!["Laomedeia", "Puck", "Aoede"]);
    assert_eq!(
        names(recommend_voices("warm audiobook", 5)),
        vec!["Achird", "Alnilam", "Despina", "Sulafat", "Achernar"]
    );
    assert_eq!(names(recommend_voices("serious medical explainer", 2)), vec!["Erinome", "Rasalgethi"]);
    assert_eq!(names(recommend_voices("noir trailer", 1)), vec!["Algenib"]);
    assert!(recommend_voices("warm", 0).is_empty());
    assert!(recommend_voices("zzz", 3).is_empty());
}

#[test]
fn recommendation_falls_back_to_first_voices() {
    let v = recommend_or_first("zzz", 2);
    assert_eq!(v.iter().map(|v| v.name).collect::<Vec<_>>(), vec!["Achernar", "Achird"]);
    let v = recommend_or_first("noir trailer", 2);
    assert_eq!(v[0].name, "Algenib");
    assert!(recommend_or_first("noir trailer", 0).is_empty());
    assert!(recommend_or_first("zzz", 0).is_empty());
}

#[test]
fn list_filters() {
    let v = filter_voices(Some("GRAVELLY"));
    assert_eq!(v.len(), 1);
    assert_eq!(v[0].name, "Algenib");
    assert_eq!(filter_voices(None).len(), 30);
    let t = filter_tags(Some(TagCategory::Pause));
    assert_eq!(t.iter().map(|t| t.tag).collect::<Vec<_>>(), vec!["[short pause]", "[medium pause]", "[long pause]"]);
    let s = search_tags("whisper");
    assert_eq!(s.len(), 1);
    assert_eq!(s[0].tag, "[whispers]");
    // The category's variant name is searchable.
    assert_eq!(search_tags("nonverbal").len(), 5);
    let l = filter_languages(Some("it-it"));
    assert_eq!(l.len(), 1);
    assert_eq!(l[0].name, "Italian");
}

#[test]
fn more_recommendations_extend_fewer() {
    let names = |v: Vec<gemtts::catalog::Voice>| v.iter().map(|v| v.name).collect::<Vec<_>>();
    for brief in ["warm audiobook", "excited podcast host", "serious medical explainer"] {
        let mut prev = names(recommend_voices(brief, 0));
        assert!(prev.is_empty());
        for count in 1..8 {
            let next = names(recommend_voices(brief, count));
            assert!(next.len() <= count);
            assert_eq!(&next[..prev.len()], &prev[..]);
            let mut sorted = next.clone();
            sorted.sort();
            sorted.dedup();
            assert_eq!(sorted.len(), next.len());
            prev = next;
        }
    }
    assert!(recommend_voices("", 3).is_empty());
    assert!(recommend_voices("?!", 3).is_empty());
}

#[test]
fn query_matching_ignores_case() {
    assert!(filter_text("anything", ""));
    assert!(filter_text("Kore firm", "KORE"));
    assert!(!filter_text("Kore", "puck"));
    assert_eq!(filter_text(&"Kore firm".to_ascii_uppercase(), "firm"), filter_text("Kore firm", "firm"));
}
