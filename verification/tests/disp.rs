use tuib::disp_mgr::disp::{clamp, BackendRequest, Disp, DispProp, Gamma, MAX_PERCENT, MIN_PERCENT};

const PROPS: [DispProp; 4] = [DispProp::Brightness, DispProp::R, DispProp::G, DispProp::B];

fn full() -> Gamma {
    Gamma { r: 100, g: 100, b: 100 }
}

fn disp(brightness: u8, r: u8, g: u8, b: u8) -> Disp {
    Disp::new(String::from("eDP-1"), brightness, Gamma { r, g, b })
}

#[test]
fn next_goes_through_the_properties() {
    let mut prop = DispProp::Brightness;
    prop.next();
    assert_eq!(prop, DispProp::R);
    prop.next();
    assert_eq!(prop, DispProp::G);
    prop.next();
    assert_eq!(prop, DispProp::B);
    prop.next();
    assert_eq!(prop, DispProp::Brightness);
}

#[test]
fn prev_goes_back_through_the_properties() {
    let mut prop = DispProp::Brightness;
    prop.prev();
    assert_eq!(prop, DispProp::B);
    prop.prev();
    assert_eq!(prop, DispProp::G);
    prop.prev();
    assert_eq!(prop, DispProp::R);
    prop.prev();
    assert_eq!(prop, DispProp::Brightness);
}

#[test]
fn prev_undoes_next_for_every_property() {
    for start in PROPS {
        let mut prop = start;
        prop.next();
        prop.prev();
        assert_eq!(prop, start);
        prop.prev();
        prop.next();
        assert_eq!(prop, start);
    }
}

#[test]
fn clamp_brings_into_range() {
    assert_eq!(MIN_PERCENT, 1);
    assert_eq!(MAX_PERCENT, 100);
    assert_eq!(clamp(0), 1);
    assert_eq!(clamp(1), 1);
    assert_eq!(clamp(2), 2);
    assert_eq!(clamp(50), 50);
    assert_eq!(clamp(100), 100);
    assert_eq!(clamp(101), 100);
    assert_eq!(clamp(255), 100);
}

#[test]
fn new_brings_every_value_into_range() {
    let made = Disp::new(String::from("HDMI-1"), 0, Gamma { r: 0, g: 200, b: 50 });
    assert_eq!(made.name, "HDMI-1");
    assert_eq!(made.brightness, 1);
    assert_eq!(made.gamma, Gamma { r: 1, g: 100, b: 50 });
    let kept = Disp::new(String::from("HDMI-1"), 80, Gamma { r: 1, g: 100, b: 50 });
    assert_eq!(kept.brightness, 80);
    assert_eq!(kept.gamma, Gamma { r: 1, g: 100, b: 50 });
}

#[test]
fn value_reads_each_property() {
    let d = disp(10, 20, 30, 40);
    assert_eq!(d.value(DispProp::Brightness), 10);
    assert_eq!(d.value(DispProp::R), 20);
    assert_eq!(d.value(DispProp::G), 30);
    assert_eq!(d.value(DispProp::B), 40);
}

#[test]
fn brightness_is_written_as_a_ratio() {
    assert_eq!(disp(100, 100, 100, 100).get_brightness(), "1.00");
    assert_eq!(disp(80, 100, 100, 100).get_brightness(), "0.80");
    assert_eq!(disp(30, 100, 100, 100).get_brightness(), "0.30");
    assert_eq!(disp(5, 100, 100, 100).get_brightness(), "0.05");
    assert_eq!(disp(1, 100, 100, 100).get_brightness(), "0.01");
    assert_eq!(disp(99, 100, 100, 100).get_brightness(), "0.99");
}

#[test]
fn brightness_beyond_the_range_is_still_written() {
    let d = Disp { name: String::from("x"), brightness: 255, gamma: full() };
    assert_eq!(d.get_brightness(), "2.55");
    let d = Disp { name: String::from("x"), brightness: 0, gamma: full() };
    assert_eq!(d.get_brightness(), "0.00");
}

#[test]
fn gamma_string_replaces_the_named_channel() {
    assert_eq!(full().to_gamma_string(&DispProp::R, 80), "0.80:1.00:1.00");
    assert_eq!(full().to_gamma_string(&DispProp::G, 60), "1.00:0.60:1.00");
    assert_eq!(full().to_gamma_string(&DispProp::B, 40), "1.00:1.00:0.40");
    assert_eq!(full().to_gamma_string(&DispProp::Brightness, 40), "1.00:1.00:1.00");
    let mixed = Gamma { r: 7, g: 55, b: 100 };
    assert_eq!(mixed.to_gamma_string(&DispProp::Brightness, 1), "0.07:0.55:1.00");
    assert_eq!(mixed.to_gamma_string(&DispProp::G, 1), "0.07:0.01:1.00");
}

#[test]
fn set_value_stores_what_was_applied() {
    let mut d = disp(100, 100, 100, 100);
    d.set_value(DispProp::Brightness, 30, true);
    assert_eq!(d, disp(30, 100, 100, 100));
    d.set_value(DispProp::R, 80, true);
    assert_eq!(d, disp(30, 80, 100, 100));
    d.set_value(DispProp::G, 60, true);
    assert_eq!(d, disp(30, 80, 60, 100));
    d.set_value(DispProp::B, 40, true);
    assert_eq!(d, disp(30, 80, 60, 40));
}

#[test]
fn set_value_never_stores_a_value_out_of_range() {
    for prop in PROPS {
        let mut d = disp(50, 50, 50, 50);
        d.set_value(prop, 0, true);
        assert_eq!(d.value(prop), 1);
        d.set_value(prop, 101, true);
        assert_eq!(d.value(prop), 100);
        d.set_value(prop, 255, true);
        assert_eq!(d.value(prop), 100);
        for other in PROPS {
            if other != prop {
                assert_eq!(d.value(other), 50);
            }
        }
    }
}

#[test]
fn set_value_keeps_the_display_where_the_backend_failed() {
    for prop in PROPS {
        let mut d = disp(50, 60, 70, 80);
        d.set_value(prop, 10, false);
        assert_eq!(d, disp(50, 60, 70, 80));
        d.set_value(prop, 255, false);
        assert_eq!(d, disp(50, 60, 70, 80));
    }
}

#[test]
fn set_value_twice_is_set_value_once() {
    for prop in PROPS {
        for val in [0u8, 1, 30, 100, 200] {
            let mut once = disp(50, 60, 70, 80);
            once.set_value(prop, val, true);
            let mut twice = once.clone();
            twice.set_value(prop, val, true);
            assert_eq!(twice, once);
            assert_eq!(twice.request(prop, val), once.request(prop, val));
        }
    }
}

#[test]
fn increment_raises_by_one_up_to_the_limit() {
    let mut d = disp(50, 99, 100, 1);
    assert_eq!(d.incremented(DispProp::Brightness), 51);
    assert_eq!(d.incremented(DispProp::R), 100);
    assert_eq!(d.incremented(DispProp::G), 100);
    assert_eq!(d.incremented(DispProp::B), 2);
    d.increment_value(DispProp::Brightness, true);
    d.increment_value(DispProp::R, true);
    d.increment_value(DispProp::G, true);
    d.increment_value(DispProp::B, true);
    assert_eq!(d, disp(51, 100, 100, 2));
}

#[test]
fn decrement_lowers_by_one_down_to_the_limit() {
    let mut d = disp(50, 2, 1, 100);
    assert_eq!(d.decremented(DispProp::Brightness), 49);
    assert_eq!(d.decremented(DispProp::R), 1);
    assert_eq!(d.decremented(DispProp::G), 1);
    assert_eq!(d.decremented(DispProp::B), 99);
    d.decrement_value(DispProp::Brightness, true);
    d.decrement_value(DispProp::R, true);
    d.decrement_value(DispProp::G, true);
    d.decrement_value(DispProp::B, true);
    assert_eq!(d, disp(49, 1, 1, 99));
}

#[test]
fn decrement_at_one_stays_at_one() {
    let mut d = disp(1, 1, 1, 1);
    for prop in PROPS {
        d.decrement_value(prop, true);
        assert_eq!(d.value(prop), 1);
    }
    assert_eq!(d, disp(1, 1, 1, 1));
}

#[test]
fn steps_from_values_out_of_range_end_in_range() {
    let high = Disp { name: String::from("x"), brightness: 255, gamma: full() };
    assert_eq!(high.incremented(DispProp::Brightness), 100);
    assert_eq!(high.decremented(DispProp::Brightness), 100);
    let low = Disp { name: String::from("x"), brightness: 0, gamma: full() };
    assert_eq!(low.incremented(DispProp::Brightness), 1);
    assert_eq!(low.decremented(DispProp::Brightness), 1);
}

#[test]
fn steps_change_nothing_where_the_backend_failed() {
    let mut d = disp(50, 60, 70, 80);
    for prop in PROPS {
        d.increment_value(prop, false);
        d.decrement_value(prop, false);
    }
    assert_eq!(d, disp(50, 60, 70, 80));
}

#[test]
fn request_describes_the_display_after_the_change() {
    let d = disp(100, 100, 100, 100);
    assert_eq!(
        d.request(DispProp::Brightness, 30),
        BackendRequest {
            name: String::from("eDP-1"),
            brightness: String::from("0.30"),
            gamma: String::from("1.00:1.00:1.00"),
        }
    );
    assert_eq!(
        d.request(DispProp::R, 80),
        BackendRequest {
            name: String::from("eDP-1"),
            brightness: String::from("1.00"),
            gamma: String::from("0.80:1.00:1.00"),
        }
    );
    let d = disp(45, 10, 20, 30);
    assert_eq!(
        d.request(DispProp::B, 31),
        BackendRequest {
            name: String::from("eDP-1"),
            brightness: String::from("0.45"),
            gamma: String::from("0.10:0.20:0.31"),
        }
    );
}

#[test]
fn request_asks_for_the_value_in_range() {
    let d = disp(50, 50, 50, 50);
    assert_eq!(d.request(DispProp::Brightness, 0).brightness, "0.01");
    assert_eq!(d.request(DispProp::Brightness, 200).brightness, "1.00");
    assert_eq!(d.request(DispProp::G, 0).gamma, "0.50:0.01:0.50");
    assert_eq!(d.request(DispProp::G, 255).gamma, "0.50:1.00:0.50");
}

#[test]
fn request_leaves_the_display_alone() {
    let d = disp(50, 50, 50, 50);
    let _ = d.request(DispProp::Brightness, 10);
    assert_eq!(d, disp(50, 50, 50, 50));
}

#[test]
fn clone_copies_the_display() {
    let d = disp(12, 34, 56, 78);
    assert_eq!(d.clone(), d);
}
