//! The generational arena and the name-keyed caches.

use safehouse_render::handle::Arena;
use safehouse_render::resource::ResourceCache;

#[test]
fn arena_stores_and_returns_values() {
    let mut arena: Arena<u32> = Arena::new();
    let a = arena.add(10);
    let b = arena.add(20);
    assert_eq!(arena.get(a), Some(&10));
    assert_eq!(arena.get(b), Some(&20));
    assert_ne!(a, b);
}

#[test]
fn arena_rejects_stale_handles_after_removal() {
    let mut arena: Arena<u32> = Arena::new();
    let a = arena.add(10);
    assert_eq!(arena.remove(a), Some(10));
    assert_eq!(arena.get(a), None);
    assert_eq!(arena.remove(a), None);
    // The slot may be reused, but the old handle must stay dead.
    let b = arena.add(30);
    assert_eq!(arena.get(a), None);
    assert_eq!(arena.get(b), Some(&30));
}

#[test]
fn cache_lookup_returns_latest_registration() {
    let mut cache: ResourceCache<u32> = ResourceCache::new();
    assert_eq!(cache.get("shader"), None);
    cache.insert(String::from("shader"), 1);
    cache.insert(String::from("model"), 2);
    assert_eq!(cache.get("shader"), Some(&1));
    assert_eq!(cache.get("model"), Some(&2));
    // Last write wins; earlier fetches are unaffected by name reuse.
    cache.insert(String::from("shader"), 3);
    assert_eq!(cache.get("shader"), Some(&3));
    assert_eq!(cache.get("model"), Some(&2));
    assert!(cache.contains("shader"));
    assert!(!cache.contains("pipeline"));
}

#[test]
fn cache_fetch_is_idempotent() {
    let mut cache: ResourceCache<u32> = ResourceCache::new();
    cache.insert(String::from("default"), 7);
    let first = *cache.get("default").unwrap();
    let second = *cache.get("default").unwrap();
    assert_eq!(first, second);
}
