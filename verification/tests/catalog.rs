use bili_cli::catalog::{
    all_ids, audio_label, contains_id, fetched_positions, first_url, has_more_pages, pick_stream,
    season_key, selected_ids, selection_title, Season,
};
use bili_cli::error::Error;

fn seasons() -> Vec<Season> {
    vec![
        Season { id: 11, title: "one".to_string() },
        Season { id: 22, title: "two".to_string() },
        Season { id: 33, title: "three".to_string() },
    ]
}

#[test]
fn seasons_are_offered_by_identifier_and_title() {
    assert_eq!(selection_title(&seasons()[1]), "22 (two)");
    assert_eq!(season_key(425), "ss425");
}

#[test]
fn picked_positions_select_their_seasons() {
    assert_eq!(all_ids(&seasons()), vec![11, 22, 33]);
    assert_eq!(selected_ids(&seasons(), &vec![2, 0]), vec![11, 33]);
    assert_eq!(selected_ids(&seasons(), &vec![1, 1, 7]), vec![22]);
    assert_eq!(selected_ids(&seasons(), &vec![]), Vec::<i64>::new());
}

#[test]
fn only_wanted_seasons_are_fetched() {
    assert_eq!(fetched_positions(&seasons(), &vec![33, 11]), vec![0, 2]);
    assert_eq!(fetched_positions(&seasons(), &vec![44]), Vec::<usize>::new());
    assert!(contains_id(&vec![1, 2, 3], 2));
    assert!(!contains_id(&vec![1, 2, 3], 4));
    assert!(!contains_id(&vec![], 0));
}

#[test]
fn audio_streams_are_labelled_by_bit_rate() {
    assert_eq!(audio_label(30216), "64K");
    assert_eq!(audio_label(30232), "132K");
    assert_eq!(audio_label(30280), "192K");
    assert_eq!(audio_label(30250), "AUDIO-30250");
    assert_eq!(audio_label(-1), "AUDIO--1");
}

#[test]
fn first_stream_of_the_quality_is_picked() {
    assert_eq!(pick_stream(&vec![120, 80, 64, 80], 80), Some(1));
    assert_eq!(pick_stream(&vec![120, 80, 64], 120), Some(0));
    assert_eq!(pick_stream(&vec![120, 80, 64], 16), None);
    assert_eq!(pick_stream(&vec![], 16), None);
}

#[test]
fn first_offered_url_is_taken() {
    assert_eq!(first_url(&vec!["a".to_string(), "b".to_string()]), Ok("a".to_string()));
    assert_eq!(first_url(&vec![]), Err(Error::MetadataFetchError));
}

#[test]
fn pages_are_fetched_until_the_total_is_reached() {
    assert!(has_more_pages(20, 1, 45));
    assert!(has_more_pages(20, 2, 45));
    assert!(!has_more_pages(20, 3, 45));
    assert!(!has_more_pages(20, 1, 20));
    assert!(!has_more_pages(20, 1, 0));
    assert!(!has_more_pages(i64::MAX, i64::MAX, i64::MAX));
    assert!(has_more_pages(i64::MAX, -1, 0));
}
