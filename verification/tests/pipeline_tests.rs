use mfcc_pipeline::build_batch;
use mfcc_pipeline::segment;
use mfcc_pipeline::Batch;
use mfcc_pipeline::MfccConfig;

// Raw backend rows for the tests: 48 finite cepstral-like values per frame,
// derived from the frame's samples so that distinct frames give distinct rows.
fn synthetic_raw_row(frame: &[i16]) -> Vec<u64> {
    let mut row = Vec::new();
    for k in 0..48usize {
        let mut acc = 0.0f64;
        for (j, s) in frame.iter().enumerate() {
            acc += (*s as f64) * (((j + k + 1) as f64).sqrt());
        }
        row.push((acc / frame.len() as f64).to_bits());
    }
    row
}

fn document_of(batch: &Batch) -> serde_json::Value {
    let mut rows = Vec::new();
    for i in 0..batch.len() {
        let row: Vec<serde_json::Value> = batch
            .get(i)
            .iter()
            .map(|b| serde_json::Value::from(f64::from_bits(*b)))
            .collect();
        rows.push(serde_json::Value::Array(row));
    }
    let mut doc = serde_json::Map::new();
    doc.insert("mfcc_batches".to_string(), serde_json::Value::Array(rows));
    serde_json::Value::Object(doc)
}

#[test]
fn two_full_frames_give_a_batch_of_two_fixed_width_vectors() {
    let samples: Vec<i16> = (0..2048).map(|i| ((i * 37) % 4001 - 2000) as i16).collect();
    let cfg = MfccConfig::new(16000, 1024, 20).unwrap();
    let frames = segment(&samples, cfg.frame_length).unwrap();
    assert_eq!(frames.len(), 2);
    let raws: Vec<Vec<u64>> = frames.iter().map(|f| synthetic_raw_row(f)).collect();
    let batch = build_batch(&raws, &cfg);
    assert_eq!(batch.len(), 2);
    assert_eq!(batch.get(0).len(), 60);
    assert_eq!(batch.get(1).len(), 60);

    let text = serde_json::to_string_pretty(&document_of(&batch)).unwrap();
    let parsed: serde_json::Value = serde_json::from_str(&text).unwrap();
    assert_eq!(parsed["mfcc_batches"].as_array().unwrap().len(), 2);
    assert_eq!(parsed["mfcc_batches"][0].as_array().unwrap().len(), 60);
}

#[test]
fn short_waveform_gives_an_empty_document_not_an_error() {
    let samples: Vec<i16> = vec![123; 700];
    let cfg = MfccConfig::new(16000, 1024, 20).unwrap();
    let frames = segment(&samples, cfg.frame_length).unwrap();
    assert!(frames.is_empty());
    let raws: Vec<Vec<u64>> = Vec::new();
    let batch = build_batch(&raws, &cfg);
    assert_eq!(batch.len(), 0);

    let text = serde_json::to_string_pretty(&document_of(&batch)).unwrap();
    let parsed: serde_json::Value = serde_json::from_str(&text).unwrap();
    assert_eq!(parsed["mfcc_batches"].as_array().unwrap().len(), 0);
}

#[test]
fn assembly_is_deterministic_over_reruns() {
    let samples: Vec<i16> = (0..4096).map(|i| ((i * 13) % 1024) as i16).collect();
    let cfg = MfccConfig::new(8000, 512, 16).unwrap();
    let frames = segment(&samples, cfg.frame_length).unwrap();
    let raws: Vec<Vec<u64>> = frames.iter().map(|f| synthetic_raw_row(f)).collect();
    let first = build_batch(&raws, &cfg);
    let second = build_batch(&raws, &cfg);
    assert_eq!(first.len(), second.len());
    for i in 0..first.len() {
        assert_eq!(first.get(i), second.get(i));
    }
}

#[test]
fn every_vector_has_the_configured_width_whatever_the_rows_hold() {
    let cfg = MfccConfig::new(44100, 256, 13).unwrap();
    let raws: Vec<Vec<u64>> = vec![vec![], vec![1; 5], vec![2; 48], vec![3; 200]];
    let batch = build_batch(&raws, &cfg);
    assert_eq!(batch.len(), 4);
    for i in 0..batch.len() {
        assert_eq!(batch.get(i).len(), 39);
    }
}

#[test]
fn narrower_configuration_keeps_the_shared_prefix() {
    let samples: Vec<i16> = (0..1024).map(|i| (i % 97) as i16 - 48).collect();
    let raw = synthetic_raw_row(&samples);
    let narrow_cfg = MfccConfig::new(16000, 1024, 5).unwrap();
    let wide_cfg = MfccConfig::new(16000, 1024, 10).unwrap();
    let narrow = build_batch(&vec![raw.clone()], &narrow_cfg);
    let wide = build_batch(&vec![raw], &wide_cfg);
    assert_eq!(narrow.get(0).len(), 15);
    assert_eq!(wide.get(0).len(), 30);
    assert_eq!(&wide.get(0)[..15], &narrow.get(0)[..]);
}
