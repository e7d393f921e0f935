use eventfold::{line_hash, Event, LogView, Reducer};
use serde_json::Value;

struct TypeLengths;

impl Reducer for TypeLengths {
    type State = Vec<usize>;

    fn initial_spec() -> Vec<usize> {
        Self::initial()
    }

    fn step(state: Vec<usize>, event: Event) -> Vec<usize> {
        Self::reduce(state, &event)
    }

    fn initial() -> Vec<usize> {
        Vec::new()
    }

    fn reduce(mut state: Vec<usize>, event: &Event) -> Vec<usize> {
        state.push(event.event_type.len());
        state
    }
}

#[test]
fn user_reducer_folds_in_order() {
    let records: Vec<(Event, String)> = ["a", "bbb", "cc"]
        .iter()
        .map(|k| (Event::new(k, Value::Null), line_hash(k.as_bytes())))
        .collect();
    let mut v = LogView::<TypeLengths>::new("lengths");
    v.install_snapshot(None);
    assert!(v.fold_history(&records, 9));
    assert_eq!(v.state(), &vec![1, 3, 2]);
    assert_eq!(v.hash(), line_hash(b"cc"));
}
