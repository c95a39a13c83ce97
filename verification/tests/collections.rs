use setui::collections::{KeyMap, KeySet};
use setui::setting_types::SettingType;

#[test]
fn key_set_ignores_repeated_elements() {
    let s = KeySet::from_slice(&[SettingType::Audio, SettingType::Light, SettingType::Audio]);
    assert_eq!(s.len(), 2);
    assert!(s.contains(&SettingType::Audio));
    assert!(s.contains(&SettingType::Light));
    assert!(!s.contains(&SettingType::Setup));
    assert_eq!(s.elements(), vec![SettingType::Audio, SettingType::Light]);
}

#[test]
fn key_set_insert_tells_whether_new() {
    let mut s = KeySet::new();
    assert!(s.insert(SettingType::Power));
    assert!(!s.insert(SettingType::Power));
    assert_eq!(s.len(), 1);
}

#[test]
fn key_set_equality_ignores_order() {
    let a = KeySet::from_slice(&[SettingType::Audio, SettingType::Light]);
    let b = KeySet::from_slice(&[SettingType::Light, SettingType::Audio]);
    let c = KeySet::from_slice(&[SettingType::Light]);
    assert!(a == b);
    assert!(a != c);
    assert!(c != a);
    assert!(a.clone() == a);
}

#[test]
fn key_map_insert_replaces() {
    let mut m: KeyMap<SettingType, u32> = KeyMap::new();
    assert_eq!(m.insert(SettingType::Display, 1), None);
    assert_eq!(m.insert(SettingType::Intl, 2), None);
    assert_eq!(m.insert(SettingType::Display, 3), Some(1));
    assert_eq!(m.len(), 2);
    assert_eq!(m.get(&SettingType::Display), Some(&3));
    assert_eq!(m.get(&SettingType::Intl), Some(&2));
    assert_eq!(m.get(&SettingType::Audio), None);
    assert!(m.contains_key(&SettingType::Intl));
    assert!(!m.contains_key(&SettingType::Audio));
}

#[test]
fn key_map_pop_empties() {
    let mut m: KeyMap<SettingType, u32> = KeyMap::new();
    m.insert(SettingType::Display, 1);
    m.insert(SettingType::Intl, 2);
    let mut seen = vec![m.pop().unwrap(), m.pop().unwrap()];
    seen.sort_by_key(|e| e.1);
    assert_eq!(seen, vec![(SettingType::Display, 1), (SettingType::Intl, 2)]);
    assert_eq!(m.pop(), None);
    assert_eq!(m.len(), 0);
}
