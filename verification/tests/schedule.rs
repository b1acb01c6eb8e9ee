use onnx_circuit::error::ModelError;
use onnx_circuit::schedule::{
    accept_order, all_in_range, check_order, eval_order, find_dangling, find_outside,
};

#[test]
fn order_puts_producers_first() {
    let preds = vec![vec![1, 2, 3], vec![], vec![], vec![]];
    assert_eq!(eval_order(&preds, &vec![1], &vec![0]), Ok(vec![1, 2, 3, 0]));
}

#[test]
fn order_of_a_chain() {
    let preds = vec![vec![], vec![], vec![], vec![0, 1, 2], vec![3]];
    assert_eq!(eval_order(&preds, &vec![0], &vec![4]), Ok(vec![0, 1, 2, 3, 4]));
}

#[test]
fn order_lists_a_shared_producer_once() {
    let preds = vec![vec![], vec![0, 0], vec![1, 0]];
    assert_eq!(eval_order(&preds, &vec![0], &vec![2]), Ok(vec![0, 1, 2]));
}

#[test]
fn order_leaves_out_what_no_output_needs() {
    let preds = vec![vec![], vec![0], vec![0]];
    assert_eq!(eval_order(&preds, &vec![0], &vec![1]), Ok(vec![0, 1]));
    assert_eq!(eval_order(&preds, &vec![0], &vec![2, 1]), Ok(vec![0, 2, 1]));
    assert_eq!(eval_order(&preds, &vec![0], &vec![]), Ok(vec![]));
}

#[test]
fn cycle_has_no_order() {
    let preds = vec![vec![1], vec![0]];
    assert_eq!(eval_order(&preds, &vec![], &vec![0]), Err(ModelError::NoEvalOrder));
}

#[test]
fn input_with_producers_has_no_order() {
    let preds = vec![vec![], vec![0]];
    assert_eq!(eval_order(&preds, &vec![1], &vec![1]), Err(ModelError::NoEvalOrder));
}

#[test]
fn dangling_producer_is_malformed() {
    let preds = vec![vec![], vec![0, 7], vec![9]];
    assert_eq!(eval_order(&preds, &vec![0], &vec![1]), Err(ModelError::MalformedGraph { node: 1 }));
    assert_eq!(find_dangling(&preds), Some(1));
    assert_eq!(find_dangling(&vec![vec![], vec![0]]), None);
    assert_eq!(find_dangling(&vec![vec![1]]), Some(0));
}

#[test]
fn output_outside_the_graph_is_malformed() {
    let preds = vec![vec![], vec![0]];
    assert_eq!(
        eval_order(&preds, &vec![0], &vec![1, 5, 6]),
        Err(ModelError::MalformedGraph { node: 5 })
    );
    assert_eq!(find_outside(&vec![1, 5, 6], 2), Some(5));
    assert_eq!(find_outside(&vec![1, 0], 2), None);
    assert_eq!(find_outside(&vec![], 0), None);
}

#[test]
fn ranges() {
    assert!(all_in_range(&vec![], 0));
    assert!(all_in_range(&vec![0, 1, 2], 3));
    assert!(!all_in_range(&vec![0, 3], 3));
}

#[test]
fn linear_extensions() {
    let preds = vec![vec![], vec![0], vec![0, 1]];
    assert!(check_order(&preds, &vec![0, 1, 2]));
    assert!(check_order(&preds, &vec![0, 1]));
    assert!(check_order(&preds, &vec![]));
    assert!(!check_order(&preds, &vec![1, 0, 2]));
    assert!(!check_order(&preds, &vec![0, 2, 1]));
    assert!(!check_order(&preds, &vec![0, 0]));
    assert!(!check_order(&preds, &vec![0, 3]));
    assert!(!check_order(&preds, &vec![2]));
    assert!(!check_order(&vec![vec![0]], &vec![0]));
    assert!(!check_order(&vec![vec![4]], &vec![0]));
}

#[test]
fn only_linear_extensions_are_accepted() {
    let preds = vec![vec![], vec![0]];
    assert_eq!(accept_order(&preds, Some(vec![0, 1])), Ok(vec![0, 1]));
    assert_eq!(accept_order(&preds, Some(vec![1, 0])), Err(ModelError::NoEvalOrder));
    assert_eq!(accept_order(&preds, None), Err(ModelError::NoEvalOrder));
}
