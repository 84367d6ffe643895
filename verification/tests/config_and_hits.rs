use rustracer::config::{Config, ConfigError, MAX_DEPTH};
use rustracer::hit::closer_index;

#[test]
fn default_config() {
    let c = Config::default();
    assert_eq!(c.output, "output.png");
    assert_eq!(c.threads, 1);
    assert_eq!(c.depth, 0);
}

#[test]
fn zero_threads_is_rejected() {
    let c = Config::new("scene.png".to_owned(), 0, 4);
    assert_eq!(c.sanitized().unwrap_err(), ConfigError::ZeroThreads);
}

#[test]
fn depth_is_clamped() {
    let c = Config::new("scene.png".to_owned(), 8, 1000).sanitized().unwrap();
    assert_eq!(c.depth, MAX_DEPTH);
    assert_eq!(c.threads, 8);
    assert_eq!(c.output, "scene.png");
}

#[test]
fn small_depth_passes_through() {
    let c = Config::new("scene.png".to_owned(), 1, 4).sanitized().unwrap();
    assert_eq!(c.depth, 4);
}

#[test]
fn no_hits_gives_none() {
    assert_eq!(closer_index(&vec![]), None);
    assert_eq!(closer_index(&vec![None, None, None]), None);
}

#[test]
fn nearest_hit_wins() {
    assert_eq!(closer_index(&vec![Some(9), None, Some(4), Some(7)]), Some(2));
}

#[test]
fn first_insertion_wins_ties() {
    assert_eq!(closer_index(&vec![Some(5), Some(3), Some(3)]), Some(1));
    assert_eq!(closer_index(&vec![None, Some(7)]), Some(1));
}
