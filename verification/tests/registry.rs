use watch_room::room_repository::{FindRoom, RegisterRoom, RemoveRoom, RoomRepository};

#[test]
fn empty_registry_finds_nothing() {
    let registry: RoomRepository<u32> = RoomRepository::default();
    assert_eq!(registry.handle_find_room(&FindRoom("GZ4KQ".to_string())), None);
}

#[test]
fn registered_room_is_found() {
    let mut registry: RoomRepository<u32> = RoomRepository::default();
    registry.handle_register_room(RegisterRoom("GZ4KQ".to_string(), 7));
    registry.handle_register_room(RegisterRoom("OTHER".to_string(), 8));
    assert_eq!(registry.handle_find_room(&FindRoom("GZ4KQ".to_string())), Some(&7));
    assert_eq!(registry.handle_find_room(&FindRoom("OTHER".to_string())), Some(&8));
    assert_eq!(registry.handle_find_room(&FindRoom("gz4kq".to_string())), None);
}

#[test]
fn registering_again_overwrites() {
    let mut registry: RoomRepository<&str> = RoomRepository::default();
    registry.handle_register_room(RegisterRoom("GZ4KQ".to_string(), "first"));
    registry.handle_register_room(RegisterRoom("GZ4KQ".to_string(), "second"));
    assert_eq!(registry.handle_find_room(&FindRoom("GZ4KQ".to_string())), Some(&"second"));
}

#[test]
fn removed_room_is_gone() {
    let mut registry: RoomRepository<u32> = RoomRepository::default();
    registry.handle_register_room(RegisterRoom("GZ4KQ".to_string(), 7));
    registry.handle_register_room(RegisterRoom("OTHER".to_string(), 8));
    registry.handle_remove_room(RemoveRoom("GZ4KQ".to_string()));
    assert_eq!(registry.handle_find_room(&FindRoom("GZ4KQ".to_string())), None);
    assert_eq!(registry.handle_find_room(&FindRoom("OTHER".to_string())), Some(&8));
    registry.handle_remove_room(RemoveRoom("NEVER".to_string()));
    assert_eq!(registry.handle_find_room(&FindRoom("OTHER".to_string())), Some(&8));
}
