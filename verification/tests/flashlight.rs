use opengl_book_examples::flashlight::FlashLight;

#[test]
fn flashlight_starts_as_told() {
    assert!(FlashLight::new(true).is_on());
    assert!(!FlashLight::new(false).is_on());
}

#[test]
fn toggling_switches_the_light() {
    let mut light = FlashLight::new(true);
    light.toggle();
    assert!(!light.is_on());
    assert_eq!(light.get_light(), vec![0, 0, 0]);
    light.toggle();
    assert!(light.is_on());
    assert_eq!(light.get_light(), vec![1, 1, 1]);
}
