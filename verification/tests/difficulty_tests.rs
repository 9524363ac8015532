use neuronudge::content::DifficultyLevel;
use neuronudge::EngineError;

fn all_levels() -> Vec<DifficultyLevel> {
    vec![
        DifficultyLevel::VeryEasy,
        DifficultyLevel::Easy,
        DifficultyLevel::Medium,
        DifficultyLevel::Hard,
        DifficultyLevel::VeryHard,
        DifficultyLevel::Expert,
        DifficultyLevel::Master,
        DifficultyLevel::Grandmaster,
    ]
}

#[test]
fn difficulty_tokens_round_trip() {
    for d in all_levels() {
        let token = d.as_str();
        assert_eq!(DifficultyLevel::parse_str(token), Ok(d));
    }
}

#[test]
fn difficulty_tokens_are_exact() {
    let expected = vec![
        "VeryEasy",
        "Easy",
        "Medium",
        "Hard",
        "VeryHard",
        "Expert",
        "Master",
        "Grandmaster",
    ];
    for (d, tok) in all_levels().into_iter().zip(expected) {
        assert_eq!(d.as_str(), tok);
    }
}

#[test]
fn difficulty_parse_rejects_unknown_tokens() {
    assert_eq!(
        DifficultyLevel::parse_str("veryeasy"),
        Err(EngineError::Configuration)
    );
    assert_eq!(
        DifficultyLevel::parse_str("Impossible"),
        Err(EngineError::Configuration)
    );
    assert_eq!(DifficultyLevel::parse_str(""), Err(EngineError::Configuration));
}

#[test]
fn difficulty_indices_are_ascending() {
    for (k, d) in all_levels().into_iter().enumerate() {
        assert_eq!(d.index(), k);
        assert_eq!(DifficultyLevel::from_index(k), d);
    }
}
