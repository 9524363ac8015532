use neuronudge::content::DifficultyLevel;
use neuronudge::snapshot::{IterationSnapshot, LearnerSnapshot, SimulationResults};
use neuronudge::simulate::run_simulation_strategy_1;

fn json_of(results: &SimulationResults) -> serde_json::Value {
    let bytes = results.to_json_bytes();
    let text = std::str::from_utf8(&bytes).expect("snapshot JSON is UTF-8");
    serde_json::from_str(text).expect("snapshot JSON parses")
}

const LEVEL_KEYS: [&str; 8] = [
    "VeryEasy",
    "Easy",
    "Medium",
    "Hard",
    "VeryHard",
    "Expert",
    "Master",
    "Grandmaster",
];

#[test]
fn two_iterations_with_six_learners_have_the_documented_shape() {
    let results = run_simulation_strategy_1(Some(2), 123);
    let doc = json_of(&results);
    let iterations = doc["iterations"].as_array().expect("iterations array");
    assert_eq!(iterations.len(), 2);
    for iteration in iterations {
        let values = iteration["values"].as_array().expect("values array");
        assert_eq!(values.len(), 6);
        for row in values {
            assert!(row["learner_id"].is_string());
            assert!(row["difficulty_level"].is_string());
            let map = row["values"].as_object().expect("values object");
            assert_eq!(map.len(), 8);
            for key in LEVEL_KEYS {
                assert!(map.contains_key(key), "missing key {}", key);
            }
        }
    }
}

#[test]
fn parsing_the_rendered_snapshot_reproduces_every_value() {
    let results = run_simulation_strategy_1(Some(3), 321);
    let doc = json_of(&results);
    let iterations = doc["iterations"].as_array().unwrap();
    assert_eq!(iterations.len(), results.iterations.len());
    for (i, iteration) in results.iterations.iter().enumerate() {
        let parsed = &iterations[i];
        assert_eq!(parsed["iteration"].as_u64().unwrap(), iteration.iteration as u64);
        for (l, row) in iteration.values.iter().enumerate() {
            let parsed_row = &parsed["values"][l];
            assert_eq!(
                parsed_row["learner_id"].as_str().unwrap(),
                row.learner_id.as_str()
            );
            assert_eq!(
                parsed_row["difficulty_level"].as_str().unwrap(),
                row.difficulty_level.as_str()
            );
            for (k, key) in LEVEL_KEYS.iter().enumerate() {
                let expected = (row.values[k] as f64) / 1000000.0;
                let got = parsed_row["values"][*key].as_f64().unwrap();
                assert_eq!(got, expected, "value {} of learner {}", key, l);
            }
        }
    }
}

#[test]
fn negative_and_fractional_values_render_exactly() {
    let row = LearnerSnapshot {
        learner_id: "L".to_string(),
        difficulty_level: DifficultyLevel::Easy,
        values: vec![-50000, 0, 750000, 1000000, -2000000, 123456, 1, 999999],
    };
    let results = SimulationResults {
        iterations: vec![IterationSnapshot { iteration: 1, values: vec![row] }],
    };
    let doc = json_of(&results);
    let map = doc["iterations"][0]["values"][0]["values"].as_object().unwrap();
    assert_eq!(map["VeryEasy"].as_f64().unwrap(), -0.05);
    assert_eq!(map["Easy"].as_f64().unwrap(), 0.0);
    assert_eq!(map["Medium"].as_f64().unwrap(), 0.75);
    assert_eq!(map["Hard"].as_f64().unwrap(), 1.0);
    assert_eq!(map["VeryHard"].as_f64().unwrap(), -2.0);
    assert_eq!(map["Expert"].as_f64().unwrap(), 0.123456);
    assert_eq!(map["Master"].as_f64().unwrap(), 0.000001);
    assert_eq!(map["Grandmaster"].as_f64().unwrap(), 0.999999);
}
