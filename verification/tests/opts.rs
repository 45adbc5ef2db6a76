use modality_trace_recorder_plugin::opts::{
    FormatArgAttributeKeysItem, FormatArgAttributeKeysSet, IgnoredObjectClass,
    IgnoredObjectClasses, InteractionMode, ObjectClass, RenameMap, RenameMapItem,
};

#[test]
fn rename_map() {
    assert_eq!(
        RenameMapItem::from_str("channel-foo:MY_FOO_EVENT"),
        Ok(RenameMapItem {
            input: "channel-foo".to_owned(),
            event_name: "MY_FOO_EVENT".to_owned()
        })
    );
    assert!(RenameMapItem::from_str(":MY_FOO_EVENT").is_err());
    assert!(RenameMapItem::from_str("channel-foo:").is_err());
    assert!(RenameMapItem::from_str(":").is_err());
}

#[test]
fn fmt_arg_attr_keys_set() {
    assert_eq!(
        FormatArgAttributeKeysItem::from_str("foo-ch:%u %d %bu:my_arg0,bar,baz"),
        Ok(FormatArgAttributeKeysItem {
            channel: "foo-ch".to_owned(),
            format_string: "%u %d %bu".to_owned(),
            arg_attr_keys: vec!["my_arg0".to_owned(), "bar".to_owned(), "baz".to_owned()],
        })
    );
}

#[test]
fn rename_map_item_error_text() {
    assert_eq!(
        RenameMapItem::from_str("a:b:c"),
        Err("Invalid rename map item 'a:b:c', use the supported format '<input-name>:<event-name>'".to_owned())
    );
    assert!(RenameMapItem::from_str("no-separator").is_err());
}

#[test]
fn fmt_arg_keys_are_trimmed_and_checked() {
    let item = FormatArgAttributeKeysItem::from_str("ch:%d %d: a , b ").unwrap();
    assert_eq!(item.arg_attr_keys, vec!["a".to_owned(), "b".to_owned()]);
    assert!(FormatArgAttributeKeysItem::from_str("ch:%d:a,,b").is_err());
    assert!(FormatArgAttributeKeysItem::from_str("ch:%d").is_err());
    assert!(FormatArgAttributeKeysItem::from_str(":%d:a").is_err());
}

#[test]
fn rename_map_get_finds_the_least_name_for_an_input() {
    let map = RenameMap::from_items(vec![
        RenameMapItem::from_str("ch:ZED").unwrap(),
        RenameMapItem::from_str("other:X").unwrap(),
        RenameMapItem::from_str("ch:ALPHA").unwrap(),
    ]);
    assert_eq!(map.get("ch"), Some("ALPHA"));
    assert_eq!(map.get("other"), Some("X"));
    assert_eq!(map.get("missing"), None);
    assert_eq!(map.as_slice().len(), 3);
}

#[test]
fn rename_map_drops_duplicates() {
    let map = RenameMap::from_items(vec![
        RenameMapItem::from_str("ch:A").unwrap(),
        RenameMapItem::from_str("ch:A").unwrap(),
    ]);
    assert_eq!(map.as_slice().len(), 1);
    assert_eq!(RenameMap::new().get("ch"), None);
}

#[test]
fn arg_attr_keys_lookup() {
    let set = FormatArgAttributeKeysSet::from_items(vec![
        FormatArgAttributeKeysItem::from_str("stats:%s %u:task,size").unwrap(),
        FormatArgAttributeKeysItem::from_str("stats:%u:count").unwrap(),
    ]);
    assert_eq!(
        set.arg_attr_keys("stats", "%s %u"),
        Some(&["task".to_owned(), "size".to_owned()][..])
    );
    assert_eq!(set.arg_attr_keys("stats", "%u"), Some(&["count".to_owned()][..]));
    assert_eq!(set.arg_attr_keys("stats", "%d"), None);
    assert_eq!(set.arg_attr_keys("other", "%u"), None);
}

#[test]
fn interaction_mode_parsing() {
    assert_eq!(InteractionMode::from_str("ipc"), Ok(InteractionMode::Ipc));
    assert_eq!(
        InteractionMode::from_str("  Fully-Linearized "),
        Ok(InteractionMode::FullyLinearized)
    );
    assert_eq!(
        InteractionMode::from_str("nope"),
        Err("Invalid interaction mode 'nope'".to_owned())
    );
    assert_eq!(InteractionMode::Ipc.name(), "ipc");
    assert_eq!(InteractionMode::default_mode(), InteractionMode::FullyLinearized);
}

#[test]
fn ignored_object_classes() {
    assert_eq!(IgnoredObjectClass::from_str(" Queue ").unwrap().0, ObjectClass::Queue);
    assert_eq!(IgnoredObjectClass::from_str("isr").unwrap().0, ObjectClass::Isr);
    assert!(IgnoredObjectClass::from_str("bogus").is_err());
    let classes = IgnoredObjectClasses::from_classes(vec![
        IgnoredObjectClass::from_str("queue").unwrap(),
        IgnoredObjectClass::from_str("mutex").unwrap(),
    ]);
    assert!(classes.contains(ObjectClass::Queue));
    assert!(classes.contains(ObjectClass::Mutex));
    assert!(!classes.contains(ObjectClass::Task));
    assert_eq!(ObjectClass::Isr.name(), "ISR");
}
