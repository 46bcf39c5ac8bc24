use harborz::download::{successful, DownloadChoices};

#[test]
fn keeps_successful_results_in_order() {
    let results: Vec<Result<i32, String>> = vec![Ok(1), Err(String::from("x")), Ok(3), Ok(4), Err(String::from("y"))];
    assert_eq!(successful(results), vec![1, 3, 4]);
    assert_eq!(successful::<i32, String>(vec![]), Vec::<i32>::new());
}

#[test]
fn images_follow_their_result() {
    let mut choices = DownloadChoices::new(2);
    assert_eq!(choices.offered(), 0);
    choices.offer(3);
    assert_eq!(choices.offered(), 3);
    choices.set_image(0, 1, vec![1, 2]);
    choices.set_image(1, 1, vec![3]);
    choices.set_image(0, 2, vec![9]);
    assert_eq!(choices.take_choice(1), vec![Some(vec![1, 2]), Some(vec![3])]);
    assert_eq!(choices.offered(), 2);
    assert_eq!(choices.take_choice(1), vec![Some(vec![9]), None]);
    assert_eq!(choices.take_choice(0), vec![None, None]);
    assert_eq!(choices.offered(), 0);
}
