use libcrium::errors::ResLocationError;
use libcrium::resource::ResLocation;

#[test]
fn test_resource_location() {
    assert!(ResLocationError::check_namespace(ResLocation::default_namespace()).is_ok());

    assert!(ResLocation::from_str("minecraft:dirt").is_ok());
    assert!(ResLocation::from_str("mine_craft0:soul_sand_0").is_ok());
    assert!(ResLocation::from_str("mine-craft1:ore/coal-ore-1").is_ok());
    assert!(ResLocation::from_str("mine.craft2:ore/coal.ore.2").is_ok());

    assert_eq!(
        ResLocation::from_str("mine_craft0:soul_sand_0").unwrap(),
        ResLocation::new("mine_craft0", "soul_sand_0").unwrap(),
    );

    assert_eq!(
        ResLocation::from_str("minecraft:"),
        Err(ResLocationError::PathEmpty)
    );

    assert_eq!(
        ResLocation::from_str(":dirt"),
        Err(ResLocationError::NamespaceEmpty)
    );

    assert_eq!(ResLocation::from_str(":"), Err(ResLocationError::NamespaceEmpty));

    assert_eq!(
        ResLocation::from_str("Minecraft:dirt"),
        Err(ResLocationError::NamespaceError)
    );

    assert_eq!(
        ResLocation::from_str("minecraft:Dirt"),
        Err(ResLocationError::PathError)
    );
}

#[test]
fn resource_test_resource_location() {
    assert!(ResLocation::from_str("minecraft:dirt").is_ok());
    assert!(ResLocation::from_str("mine_craft0:soul_sand_0").is_ok());
    assert!(ResLocation::from_str("mine-craft1:ore/coal-ore-1").is_ok());
    assert!(ResLocation::from_str("mine.craft2:ore/coal.ore.2").is_ok());

    assert_eq!(
        ResLocation::from_str("mine_craft0:soul_sand_0").unwrap(),
        ResLocation::new("mine_craft0", "soul_sand_0").unwrap(),
    );

    assert_eq!(
        ResLocation::from_str("minecraft:"),
        Err(ResLocationError::PathEmpty)
    );

    assert_eq!(
        ResLocation::from_str(":dirt"),
        Err(ResLocationError::NamespaceEmpty)
    );

    assert_eq!(ResLocation::from_str(":"), Err(ResLocationError::NamespaceEmpty));

    assert_eq!(
        ResLocation::from_str("Minecraft:dirt"),
        Err(ResLocationError::NamespaceError)
    );

    assert_eq!(
        ResLocation::from_str("minecraft:Dirt"),
        Err(ResLocationError::PathError)
    );
}

#[test]
fn test_resource_location_parts() {
    let loc = ResLocation::from_str("minecraft:dirt").unwrap();
    assert_eq!(loc.as_str(), "minecraft:dirt");
    assert_eq!(loc.namespace(), "minecraft");
    assert_eq!(loc.path(), "dirt");
    assert_eq!(loc.as_parts(), ("minecraft", "dirt"));

    // without a colon the default namespace steps in.
    let loc = ResLocation::from_str("stone").unwrap();
    assert_eq!(loc.namespace(), "minecrium");
    assert_eq!(loc.path(), "stone");

    // the string splits at the first colon; the rest of the path may not
    // hold another one.
    assert_eq!(
        ResLocation::from_str("a:b:c"),
        Err(ResLocationError::PathError)
    );

    assert_eq!(
        ResLocation::new("", "dirt"),
        Err(ResLocationError::NamespaceEmpty)
    );
    assert_eq!(
        ResLocation::new("minecraft", ""),
        Err(ResLocationError::PathEmpty)
    );
    assert_eq!(
        ResLocation::new("Minecraft", "dirt"),
        Err(ResLocationError::NamespaceError)
    );
    assert_eq!(
        ResLocation::new("minecraft", "Dirt"),
        Err(ResLocationError::PathError)
    );
}
