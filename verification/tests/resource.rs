use vitruvia::resource::ProviderOutcome;
use vitruvia::resource::Resource;
use vitruvia::resource::ResourceError;
use vitruvia::resource::SimpleResourceManager;

#[test]
fn resource_keeps_its_digest() {
    let r = Resource::new(vec![1, 2, 3, 4]);
    assert_eq!(r.hash(), vec![1, 2, 3, 4]);
}

#[test]
fn cast_keeps_provider_errors() {
    let e: ResourceError<()> = ResourceError::Provider(String::from("socket closed"));
    let cast: ResourceError<u8> = e.cast();
    assert_eq!(cast, ResourceError::Provider(String::from("socket closed")));
}

#[test]
fn cast_keeps_unknown_algorithm() {
    let e: ResourceError<()> = ResourceError::UnknownAlgorithm;
    let cast: ResourceError<u8> = e.cast();
    assert_eq!(cast, ResourceError::UnknownAlgorithm);
}

#[test]
fn fetch_without_provider_is_unknown_algorithm() {
    let mgr = SimpleResourceManager::new();
    assert_eq!(
        mgr.fetch(7, vec![ProviderOutcome::Found(vec![1])]),
        Err(ResourceError::UnknownAlgorithm)
    );
}

#[test]
fn fetch_returns_first_found_content() {
    let mut mgr = SimpleResourceManager::new();
    mgr.add_provider(7);
    mgr.add_provider(7);
    let outcomes = vec![
        ProviderOutcome::Missing,
        ProviderOutcome::Found(vec![9, 9]),
        ProviderOutcome::Found(vec![1]),
    ];
    assert_eq!(mgr.fetch(7, outcomes), Ok(Some(vec![9, 9])));
}

#[test]
fn fetch_propagates_first_provider_error() {
    let mut mgr = SimpleResourceManager::new();
    mgr.add_provider(3);
    let outcomes = vec![
        ProviderOutcome::Missing,
        ProviderOutcome::Failed(String::from("timeout")),
        ProviderOutcome::Found(vec![1]),
    ];
    assert_eq!(
        mgr.fetch(3, outcomes),
        Err(ResourceError::Provider(String::from("timeout")))
    );
}

#[test]
fn fetch_with_all_misses_finds_nothing() {
    let mut mgr = SimpleResourceManager::new();
    mgr.add_provider(3);
    let outcomes = vec![ProviderOutcome::Missing, ProviderOutcome::Missing];
    assert_eq!(mgr.fetch(3, outcomes), Ok(None));
}

#[test]
fn providers_are_kept_per_algorithm() {
    let mut mgr = SimpleResourceManager::new();
    mgr.add_provider(1);
    mgr.add_provider(2);
    assert_eq!(mgr.fetch(2, vec![]), Ok(None));
    assert_eq!(mgr.fetch(5, vec![]), Err(ResourceError::UnknownAlgorithm));
}
