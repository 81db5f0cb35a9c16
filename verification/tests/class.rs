use winman::class::{ClassRegistry, RegistrationError, WindowClass};
use winman::win32;

#[test]
fn a_zero_atom_is_a_refusal() {
    assert_eq!(WindowClass::register(0), Err(RegistrationError));
    assert_eq!(WindowClass::register(0xC001), Ok(WindowClass { atom: 0xC001 }));
    assert_eq!(WindowClass::register(1), Ok(WindowClass { atom: 1 }));
}

#[test]
fn name_and_style_of_the_class() {
    let class = WindowClass::register(0xC001).unwrap();
    assert_eq!(class.name(), "winman");
    assert_eq!(class.style(), 3);
    assert_eq!(class.style(), win32::CS_HREDRAW | win32::CS_VREDRAW);
}

#[test]
fn the_class_is_registered_once() {
    let mut registry = ClassRegistry::new();
    assert_eq!(registry.class(), None);
    assert_eq!(registry.register(0xC001), Ok(WindowClass { atom: 0xC001 }));
    assert_eq!(registry.class(), Some(Ok(WindowClass { atom: 0xC001 })));
    assert_eq!(registry.register(0xC002), Ok(WindowClass { atom: 0xC001 }));
    assert_eq!(registry.register(0), Ok(WindowClass { atom: 0xC001 }));
    assert_eq!(registry.class(), Some(Ok(WindowClass { atom: 0xC001 })));
}

#[test]
fn a_refusal_is_remembered() {
    let mut registry = ClassRegistry::new();
    assert_eq!(registry.register(0), Err(RegistrationError));
    assert_eq!(registry.class(), Some(Err(RegistrationError)));
    assert_eq!(registry.register(0xC001), Err(RegistrationError));
    assert!(!registry.unregister(true));
}

#[test]
fn the_class_is_given_back_once() {
    let mut registry = ClassRegistry::new();
    assert!(!registry.unregister(true));
    assert_eq!(registry.class(), None);
    registry.register(0xC001).unwrap();
    assert!(registry.unregister(true));
    assert!(!registry.unregister(true));
    assert_eq!(registry.class(), Some(Err(RegistrationError)));
    assert_eq!(registry.register(0xC001), Err(RegistrationError));
}

#[test]
fn the_class_outlives_its_windows() {
    let mut registry = ClassRegistry::new();
    registry.register(0xC001).unwrap();
    assert!(!registry.unregister(false));
    assert_eq!(registry.class(), Some(Ok(WindowClass { atom: 0xC001 })));
    assert_eq!(registry.register(7), Ok(WindowClass { atom: 0xC001 }));
    assert!(registry.unregister(true));
}
