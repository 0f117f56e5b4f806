use loom::bench::{batch_answers, BatchRun, Verdict};
use loom::eval::table::{str_lt, table_lookup, table_store};
use loom::eval::{
    export_groups, matched_results, Decision, Difficulty, Entry, EvalResult, LabelResult, Sample,
    SampleDataset, SampleResult,
};

fn strings(v: &[&str]) -> Vec<String> {
    v.iter().map(|s| s.to_string()).collect()
}

fn sample(id: &str, category: &str, expected: &[&str], decision: Decision) -> Sample {
    Sample {
        id: id.to_string(),
        text: format!("text of {}", id),
        context: None,
        expected_decision: decision,
        expected_labels: strings(expected),
        primary_category: category.to_string(),
        difficulty: Difficulty::Medium,
        notes: None,
        metadata: None,
    }
}

fn label<'a>(entries: &'a [Entry<LabelResult>], name: &str) -> &'a LabelResult {
    &entries.iter().find(|e| e.name == name).unwrap().value
}

fn outcomes() -> Vec<(Sample, SampleResult)> {
    let a = sample("a", "task", &["task", "time"], Decision::Accept);
    let b = sample("b", "memory", &["entity"], Decision::Accept);
    let c = sample("c", "task", &["task"], Decision::Reject);
    let ra = SampleResult::scored(&a, Decision::Accept, strings(&["task", "entity"]));
    let rb = SampleResult::rejected(&b);
    let rc = SampleResult::scored(&c, Decision::Accept, strings(&["task"]));
    vec![(a, ra), (b, rb), (c, rc)]
}

#[test]
fn scored_result_is_correct_when_decisions_agree() {
    let s = sample("x", "task", &["task"], Decision::Accept);
    let r = SampleResult::scored(&s, Decision::Accept, strings(&["task"]));
    assert!(r.correct);
    assert_eq!(r.expected_labels, strings(&["task"]));
    let r = SampleResult::scored(&s, Decision::Reject, vec![]);
    assert!(!r.correct);
}

#[test]
fn rejected_result_detects_nothing() {
    let s = sample("x", "task", &["task"], Decision::Reject);
    let r = SampleResult::rejected(&s);
    assert_eq!(r.actual_decision, Decision::Reject);
    assert!(r.correct);
    assert!(r.detected_labels.is_empty());
    let s = sample("y", "task", &["task"], Decision::Accept);
    assert!(!SampleResult::rejected(&s).correct);
}

#[test]
fn outcomes_are_counted_overall_by_category_and_by_label() {
    let result = EvalResult::from_outcomes(outcomes());
    assert_eq!(result.total, 3);
    assert_eq!(result.correct, 1);
    assert_eq!(result.sample_results.len(), 3);

    let names: Vec<&str> = result.per_category.iter().map(|e| e.name.as_str()).collect();
    assert_eq!(names, vec!["memory", "task"]);
    let task = &result.per_category[1].value;
    assert_eq!((task.total, task.correct), (2, 1));
    let memory = &result.per_category[0].value;
    assert_eq!((memory.total, memory.correct), (1, 0));

    let task = label(&result.per_label, "task");
    assert_eq!(task.expected_count, 2);
    assert_eq!(task.detected_count, 2);
    assert_eq!(task.true_positives, 2);
    assert_eq!(task.false_positives, 0);
    assert_eq!(task.false_negatives, 0);

    let entity = label(&result.per_label, "entity");
    assert_eq!(entity.expected_count, 1);
    assert_eq!(entity.detected_count, 1);
    assert_eq!(entity.true_positives, 0);
    assert_eq!(entity.false_positives, 1);
    assert_eq!(entity.false_negatives, 1);

    let time = label(&result.per_label, "time");
    assert_eq!((time.expected_count, time.detected_count, time.false_negatives), (1, 0, 1));
}

#[test]
fn category_totals_add_up_to_the_total() {
    let result = EvalResult::from_outcomes(outcomes());
    let total: usize = result.per_category.iter().map(|e| e.value.total).sum();
    let correct: usize = result.per_category.iter().map(|e| e.value.correct).sum();
    assert_eq!(total, result.total);
    assert_eq!(correct, result.correct);
}

#[test]
fn every_detection_is_a_true_or_false_positive() {
    let result = EvalResult::from_outcomes(outcomes());
    for e in &result.per_label {
        let r = &e.value;
        assert_eq!(r.true_positives + r.false_positives, r.detected_count);
        assert!(r.false_negatives <= r.expected_count);
    }
}

#[test]
fn recording_one_by_one_matches_counting_all() {
    let mut result = EvalResult::new();
    for (s, r) in outcomes() {
        result.record(&s, r);
    }
    let all = EvalResult::from_outcomes(outcomes());
    assert_eq!(result.total, all.total);
    assert_eq!(result.correct, all.correct);
    assert_eq!(result.per_label.len(), all.per_label.len());
}

#[test]
fn duplicate_expected_labels_are_each_counted() {
    let s = sample("d", "task", &["task", "task"], Decision::Accept);
    let r = SampleResult::scored(&s, Decision::Accept, strings(&["task"]));
    let result = EvalResult::from_outcomes(vec![(s, r)]);
    let task = label(&result.per_label, "task");
    assert_eq!(task.expected_count, 2);
    assert_eq!(task.true_positives, 1);
    assert_eq!(task.false_negatives, 0);
}

#[test]
fn export_groups_sorted_categories_with_their_samples() {
    let mut dataset = SampleDataset::new();
    let mut result = EvalResult::new();
    for (s, r) in outcomes() {
        dataset.samples.push(s.clone());
        result.record(&s, r);
    }
    // a sample without a result is left out
    dataset.samples.push(sample("z", "other", &["task"], Decision::Accept));

    let groups = export_groups(&dataset, &result);
    let names: Vec<&str> = groups.iter().map(|g| g.name.as_str()).collect();
    assert_eq!(names, vec!["memory", "task"]);
    let task = &groups[1];
    assert_eq!(task.total, 2);
    assert_eq!(task.correct, 1);
    assert_eq!(task.members, vec![(0, 0), (2, 2)]);
    let t = label(&task.labels, "task");
    assert_eq!((t.expected_count, t.true_positives, t.false_negatives), (2, 2, 0));
    let label_names: Vec<&str> = task.labels.iter().map(|e| e.name.as_str()).collect();
    assert_eq!(label_names, vec!["entity", "task", "time"]);
}

#[test]
fn export_pairs_a_sample_with_the_last_result_of_its_id() {
    let s = sample("a", "task", &["task"], Decision::Accept);
    let first = SampleResult::scored(&s, Decision::Reject, vec![]);
    let second = SampleResult::scored(&s, Decision::Accept, strings(&["task"]));
    let mut dataset = SampleDataset::new();
    dataset.samples.push(s.clone());
    let mut result = EvalResult::new();
    result.record(&s, first);
    result.record(&s, second);
    assert_eq!(matched_results(&dataset, &result), vec![(0, 1)]);
    let groups = export_groups(&dataset, &result);
    assert_eq!(groups[0].correct, 1);
}

#[test]
fn names_order_by_code_point() {
    assert!(str_lt("a", "b"));
    assert!(str_lt("ab", "abc"));
    assert!(!str_lt("abc", "ab"));
    assert!(!str_lt("same", "same"));
    assert!(str_lt("Z", "a"));
    assert!(str_lt("é", "ê"));
}

#[test]
fn table_keeps_names_sorted_and_distinct() {
    let mut t: Vec<Entry<u32>> = Vec::new();
    for (k, v) in [("pear", 1), ("apple", 2), ("fig", 3), ("apple", 4)] {
        table_store(&mut t, &k.to_string(), v);
    }
    let names: Vec<&str> = t.iter().map(|e| e.name.as_str()).collect();
    assert_eq!(names, vec!["apple", "fig", "pear"]);
    assert_eq!(table_lookup(&t, &"apple".to_string()), Some(4));
    assert_eq!(table_lookup(&t, &"kiwi".to_string()), None);
}

#[test]
fn dataset_reports_each_problem_in_order() {
    let mut dataset = SampleDataset::new();
    dataset.samples.push(sample("a", "task", &["task"], Decision::Accept));
    let mut bad = sample("a", "nope", &[], Decision::Accept);
    bad.text = " \t\n".to_string();
    dataset.samples.push(bad);
    dataset.samples.push(sample("c", "task", &["task", "bogus"], Decision::Accept));
    let cats = strings(&["task"]);
    let labels = strings(&["task"]);
    let errors = dataset.validate_with_config(Some(&cats), Some(&labels));
    let seen: Vec<(String, String)> = errors.into_iter().map(|e| (e.sample_id, e.message)).collect();
    assert_eq!(
        seen,
        vec![
            ("a".to_string(), "Duplicate sample ID".to_string()),
            ("a".to_string(), "Empty text".to_string()),
            ("a".to_string(), "No expected labels".to_string()),
            ("a".to_string(), "Invalid category: 'nope'".to_string()),
            ("c".to_string(), "Invalid label: 'bogus'".to_string()),
        ]
    );
}

#[test]
fn valid_dataset_has_no_problems() {
    let mut dataset = SampleDataset::new();
    dataset.samples.push(sample("a", "task", &["task"], Decision::Accept));
    dataset.samples.push(sample("b", "task", &["time"], Decision::Reject));
    assert!(dataset.validate().is_empty());
    assert_eq!(dataset.created.len(), 10);
}

// === batch runs ===

#[test]
fn batch_answers_pairs_outputs_in_order_while_they_last() {
    let ok: Result<Vec<u32>, ()> = Ok(vec![7, 8, 9]);
    assert_eq!(batch_answers(2, ok), vec![Some(7), Some(8)]);
    let short: Result<Vec<u32>, ()> = Ok(vec![7]);
    assert_eq!(batch_answers(3, short), vec![Some(7)]);
    let failed: Result<Vec<u32>, &str> = Err("model failed");
    assert_eq!(batch_answers(3, failed), vec![None, None, None]);
}

fn verdict(decision: Decision, labels: &[&str], score: u32) -> Verdict<u32> {
    Verdict { decision, detected_labels: strings(labels), score }
}

#[test]
fn batch_run_scores_in_batches_and_rejects_failed_batches() {
    let samples = vec![
        sample("a", "task", &["task"], Decision::Accept),
        sample("b", "task", &[], Decision::Reject),
        sample("c", "memory", &["entity"], Decision::Accept),
    ];
    let mut run = BatchRun::<u32>::new(samples, 2);

    let texts = run.next_texts().unwrap();
    assert_eq!(texts, vec!["text of a".to_string(), "text of b".to_string()]);
    let answer: Result<Vec<Verdict<u32>>, ()> =
        Ok(vec![verdict(Decision::Accept, &["task"], 90), verdict(Decision::Accept, &[], 60)]);
    let progress = run.batch_scored(answer);
    assert_eq!(progress.len(), 2);
    assert_eq!((progress[0].current, progress[0].total, progress[0].sample_id.as_str(), progress[0].correct), (1, 3, "a", true));
    assert_eq!((progress[1].current, progress[1].sample_id.as_str(), progress[1].correct), (2, "b", false));

    assert_eq!(run.next_texts().unwrap(), vec!["text of c".to_string()]);
    let failed: Result<Vec<Verdict<u32>>, ()> = Err(());
    let progress = run.batch_scored(failed);
    assert_eq!((progress[0].current, progress[0].sample_id.as_str(), progress[0].correct), (3, "c", false));
    assert!(run.next_texts().is_none());

    let outcomes = run.finish();
    assert_eq!(outcomes.len(), 3);
    let (s, r, score) = &outcomes[2];
    assert_eq!(s.id, "c");
    assert_eq!(r.actual_decision, Decision::Reject);
    assert!(r.detected_labels.is_empty());
    assert_eq!(*score, None);
    assert_eq!(outcomes[0].2, Some(90));
    assert_eq!(outcomes[1].1.actual_decision, Decision::Accept);
    assert!(!outcomes[1].1.correct);

    let result = EvalResult::from_outcomes(outcomes.into_iter().map(|(s, r, _)| (s, r)).collect());
    assert_eq!((result.total, result.correct), (3, 1));
}

#[test]
fn batch_run_skips_samples_the_scorer_gave_no_output_for() {
    let samples = vec![
        sample("a", "task", &[], Decision::Accept),
        sample("b", "task", &[], Decision::Accept),
    ];
    let mut run = BatchRun::<u32>::new(samples, 5);
    let answer: Result<Vec<Verdict<u32>>, ()> = Ok(vec![verdict(Decision::Accept, &[], 1)]);
    let progress = run.batch_scored(answer);
    assert_eq!(progress.len(), 1);
    assert!(run.next_texts().is_none());
    let outcomes = run.finish();
    assert_eq!(outcomes.len(), 1);
    assert_eq!(outcomes[0].0.id, "a");
}
