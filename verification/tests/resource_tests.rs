use rs_cdn::resource::Resource;

#[test]
fn resource_names_resolve() {
    assert_eq!(Resource::try_from("avatars"), Ok(Resource::Avatars));
    assert_eq!(Resource::try_from("icons"), Ok(Resource::Icons));
    assert_eq!(Resource::try_from("Avatars"), Err("Unknown resource specified".to_string()));
    assert_eq!(Resource::Avatars.to_string(), "avatars");
    assert!(Resource::Icons.singleton());
}
