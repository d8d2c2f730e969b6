use slm_patterns::controller::{Action, SLMController, SLMControllerMsg};
use slm_patterns::pattern_container::{PatternContainer, PatternContainerMsg};
use slm_patterns::slm_data::{Double, PatternContainerData, PatternData};
use std::collections::HashMap;

fn double(x: f64) -> Double {
    Double::from_bits(x.to_bits())
}

fn pattern(l: i32, a: f64, k: (f64, f64), c: (f64, f64), phase: f64) -> PatternData {
    PatternData {
        l,
        a: double(a),
        k: (double(k.0), double(k.1)),
        c: (double(c.0), double(c.1)),
        phase: double(phase),
    }
}

/// Two containers, 0 and 1, with two patterns each.
fn two_by_two() -> SLMController {
    let mut controller = SLMController::new(SLMController::model(()));
    for c in 0..2 {
        controller.update(SLMControllerMsg::AddTab);
        for p in 0..2 {
            let seed = (10 * c + p) as f64;
            let data = pattern(
                c as i32 - p as i32,
                seed + 0.5,
                (seed + 1.0, seed + 2.0),
                (seed + 3.0, seed + 4.0),
                seed + 5.0,
            );
            assert_eq!(controller.add_pattern(c, data), Some(p));
        }
    }
    controller
}

fn snapshot(controller: &SLMController) -> HashMap<usize, PatternContainerData> {
    controller.save_containers(true).unwrap()
}

fn counters(controller: &SLMController) -> Vec<(usize, usize)> {
    let mut all = vec![(usize::MAX, controller.next_container_id())];
    for id in controller.container_ids() {
        all.push((id, controller.container(id).unwrap().next_pattern_id()));
    }
    all
}

#[test]
fn new_controller_is_empty() {
    let controller = SLMController::new(SLMController::model(()));
    assert_eq!(controller.len(), 0);
    assert_eq!(controller.next_container_id(), 0);
    assert!(controller.container_ids().is_empty());
    assert!(controller.container(0).is_none());
    assert!(snapshot(&controller).is_empty());
}

#[test]
fn default_pattern_is_all_zero() {
    let p = PatternData::default();
    assert_eq!(p, pattern(0, 0.0, (0.0, 0.0), (0.0, 0.0), 0.0));
    assert_eq!(p.a.to_bits(), 0);
    assert_eq!(Double::default().to_bits(), 0);
}

#[test]
fn default_container_is_all_zero_and_empty() {
    let d = PatternContainerData::default();
    let zero = (double(0.0), double(0.0));
    assert_eq!(d.top_left, zero);
    assert_eq!(d.bottom_right, zero);
    assert_eq!(d.pos, zero);
    assert_eq!(d.scale, zero);
    assert!(d.patterns.is_empty());
}

#[test]
fn double_keeps_every_bit() {
    let numbers =
        [0.0f64, -0.0, 1.5708, f64::MIN, f64::MAX, f64::INFINITY, f64::NEG_INFINITY, f64::NAN];
    for x in numbers {
        let d = Double::from_bits(x.to_bits());
        assert_eq!(d.to_bits(), x.to_bits());
        assert_eq!(d.bits, x.to_bits());
    }
    assert_ne!(double(0.0), double(-0.0));
    assert_eq!(double(f64::NAN), double(f64::NAN));
}

#[test]
fn added_container_starts_without_patterns() {
    let mut controller = SLMController::new(SLMController::model(()));
    let mut given = PatternContainerData::default();
    given.pos = (double(3.0), double(4.0));
    given.scale = (double(1.0), double(2.0));
    given.patterns.insert(7, pattern(1, 1.0, (1.0, 1.0), (1.0, 1.0), 1.0));
    let id = controller.add_new_container(given.clone());
    assert_eq!(id, 0);
    let container = controller.container(0).unwrap();
    assert_eq!(container.id(), 0);
    assert_eq!(container.next_pattern_id(), 0);
    let mut expected = given;
    expected.patterns.clear();
    assert_eq!(container.data(), &expected);
    assert_eq!(controller.next_container_id(), 1);
}

#[test]
fn container_put_without_increment_is_replaced_by_the_next() {
    let mut controller = SLMController::new(SLMController::model(()));
    let mut first = PatternContainerData::default();
    first.pos = (double(1.0), double(1.0));
    controller.add_new_container_no_increment(first.clone());
    assert_eq!(controller.next_container_id(), 0);
    assert_eq!(controller.len(), 1);
    assert_eq!(controller.container(0).unwrap().data(), &first);
    let mut second = PatternContainerData::default();
    second.pos = (double(2.0), double(2.0));
    assert_eq!(controller.add_new_container(second.clone()), 0);
    assert_eq!(controller.len(), 1);
    assert_eq!(controller.container(0).unwrap().data(), &second);
    assert_eq!(controller.next_container_id(), 1);
}

#[test]
fn removal_needs_confirmation() {
    let mut controller = two_by_two();
    let before = snapshot(&controller);
    controller.remove_container(0, false);
    assert_eq!(snapshot(&controller), before);
    controller.remove_all_containers(false);
    assert_eq!(snapshot(&controller), before);
    assert_eq!(controller.len(), 2);
}

#[test]
fn removal_takes_the_container_and_its_patterns() {
    let mut controller = two_by_two();
    let before = snapshot(&controller);
    controller.remove_container(0, true);
    let after = snapshot(&controller);
    assert_eq!(after.len(), 1);
    assert!(!after.contains_key(&0));
    assert_eq!(after[&1], before[&1]);
    assert_eq!(controller.next_container_id(), 2);
}

#[test]
fn removing_twice_is_removing_once() {
    let mut once = two_by_two();
    once.remove_container(1, true);
    let mut twice = two_by_two();
    twice.remove_container(1, true);
    twice.remove_container(1, true);
    assert_eq!(snapshot(&once), snapshot(&twice));
    assert_eq!(counters(&once), counters(&twice));
}

#[test]
fn removing_a_missing_container_changes_nothing() {
    let mut controller = two_by_two();
    let before = snapshot(&controller);
    let ids = counters(&controller);
    controller.remove_container(5, true);
    assert_eq!(snapshot(&controller), before);
    assert_eq!(counters(&controller), ids);
}

#[test]
fn removing_all_keeps_the_counter() {
    let mut controller = two_by_two();
    controller.remove_all_containers(true);
    assert_eq!(controller.len(), 0);
    assert!(snapshot(&controller).is_empty());
    assert_eq!(controller.next_container_id(), 2);
    controller.update(SLMControllerMsg::AddTab);
    assert_eq!(controller.container_ids(), vec![2]);
}

#[test]
fn pattern_for_a_missing_container_is_dropped() {
    let mut controller = two_by_two();
    let before = snapshot(&controller);
    let ids = counters(&controller);
    assert_eq!(controller.add_pattern(9, PatternData::default()), None);
    let event = SLMControllerMsg::AddController(9, PatternData::default());
    assert_eq!(controller.update(event), Action::Render);
    assert_eq!(snapshot(&controller), before);
    assert_eq!(counters(&controller), ids);
}

#[test]
fn removing_a_pattern_leaves_the_others() {
    let mut controller = two_by_two();
    let before = snapshot(&controller);
    controller.update(SLMControllerMsg::RemoveController(1, 0));
    let after = snapshot(&controller);
    assert_eq!(after[&0], before[&0]);
    assert_eq!(after[&1].patterns.len(), 1);
    assert_eq!(after[&1].patterns[&1], before[&1].patterns[&1]);
    assert_eq!(controller.container(1).unwrap().next_pattern_id(), 2);
    let ids = counters(&controller);
    controller.update(SLMControllerMsg::RemoveController(1, 0));
    controller.update(SLMControllerMsg::RemoveController(1, 5));
    controller.update(SLMControllerMsg::RemoveController(5, 0));
    assert_eq!(snapshot(&controller), after);
    assert_eq!(counters(&controller), ids);
}

#[test]
fn charge_update_changes_one_charge_only() {
    let mut controller = two_by_two();
    let before = snapshot(&controller);
    let ids = counters(&controller);
    assert_eq!(controller.update(SLMControllerMsg::UpdatePatternL(1, 0, 7)), Action::Render);
    let after = snapshot(&controller);
    assert_eq!(after[&0], before[&0]);
    assert_eq!(after[&1].patterns[&1], before[&1].patterns[&1]);
    assert_eq!(after[&1].patterns[&0], PatternData { l: 7, ..before[&1].patterns[&0] });
    assert_eq!(after[&1].top_left, before[&1].top_left);
    assert_eq!(after[&1].bottom_right, before[&1].bottom_right);
    assert_eq!(after[&1].pos, before[&1].pos);
    assert_eq!(after[&1].scale, before[&1].scale);
    assert_eq!(after[&1].patterns.len(), 2);
    assert_eq!(counters(&controller), ids);
}

#[test]
fn each_pattern_update_reaches_its_parameter() {
    let start = pattern(1, 2.0, (3.0, 4.0), (5.0, 6.0), 7.0);
    let x = double(-9.25);
    let cases = [
        (SLMControllerMsg::UpdatePatternL(0, 0, -3), PatternData { l: -3, ..start }),
        (SLMControllerMsg::UpdatePatternA(0, 0, x), PatternData { a: x, ..start }),
        (SLMControllerMsg::UpdatePatternKx(0, 0, x), PatternData { k: (x, start.k.1), ..start }),
        (SLMControllerMsg::UpdatePatternKy(0, 0, x), PatternData { k: (start.k.0, x), ..start }),
        (SLMControllerMsg::UpdatePatternCx(0, 0, x), PatternData { c: (x, start.c.1), ..start }),
        (SLMControllerMsg::UpdatePatternCy(0, 0, x), PatternData { c: (start.c.0, x), ..start }),
        (SLMControllerMsg::UpdatePatternPhase(0, 0, x), PatternData { phase: x, ..start }),
    ];
    for (event, expected) in cases {
        let mut controller = SLMController::new(SLMController::model(()));
        controller.update(SLMControllerMsg::AddTab);
        controller.add_pattern(0, start);
        controller.add_pattern(0, start);
        assert!(controller.accepts(&event));
        assert_eq!(controller.update(event), Action::Render);
        let container = controller.container(0).unwrap();
        assert_eq!(container.pattern(0), Some(expected));
        assert_eq!(container.pattern(1), Some(start));
        assert_eq!(container.pattern(2), None);
    }
}

#[test]
fn each_container_update_reaches_its_parameter() {
    let x = double(12.5);
    let zero = double(0.0);
    let read: [(SLMControllerMsg, fn(&PatternContainerData) -> Double); 8] = [
        (SLMControllerMsg::UpdateContainerCx(1, x), |d| d.pos.0),
        (SLMControllerMsg::UpdateContainerCy(1, x), |d| d.pos.1),
        (SLMControllerMsg::UpdateContainerScaleX(1, x), |d| d.scale.0),
        (SLMControllerMsg::UpdateContainerScaleY(1, x), |d| d.scale.1),
        (SLMControllerMsg::UpdateContainerTLX(1, x), |d| d.top_left.0),
        (SLMControllerMsg::UpdateContainerTLY(1, x), |d| d.top_left.1),
        (SLMControllerMsg::UpdateContainerBRX(1, x), |d| d.bottom_right.0),
        (SLMControllerMsg::UpdateContainerBRY(1, x), |d| d.bottom_right.1),
    ];
    for (event, field) in read {
        let mut controller = two_by_two();
        let before = snapshot(&controller);
        assert_eq!(controller.update(event), Action::Render);
        let after = snapshot(&controller);
        assert_eq!(after[&0], before[&0]);
        assert_eq!(after[&1].patterns, before[&1].patterns);
        assert_eq!(field(&after[&1]), x);
        let d = &after[&1];
        let values = [
            d.pos.0, d.pos.1, d.scale.0, d.scale.1,
            d.top_left.0, d.top_left.1, d.bottom_right.0, d.bottom_right.1,
        ];
        assert_eq!(values.iter().filter(|v| **v == x).count(), 1);
        assert_eq!(values.iter().filter(|v| **v == zero).count(), 7);
    }
}

#[test]
fn region_is_not_checked() {
    let mut controller = two_by_two();
    controller.update(SLMControllerMsg::UpdateContainerTLX(0, double(100.0)));
    controller.update(SLMControllerMsg::UpdateContainerBRX(0, double(-100.0)));
    controller.update(SLMControllerMsg::UpdateContainerScaleX(0, double(f64::NAN)));
    controller.update(SLMControllerMsg::UpdateContainerScaleY(0, double(f64::INFINITY)));
    let data = snapshot(&controller);
    assert_eq!(data[&0].top_left.0, double(100.0));
    assert_eq!(data[&0].bottom_right.0, double(-100.0));
    assert!(f64::from_bits(data[&0].scale.0.to_bits()).is_nan());
    assert_eq!(data[&0].scale.0.to_bits(), f64::NAN.to_bits());
    assert_eq!(f64::from_bits(data[&0].scale.1.to_bits()), f64::INFINITY);
}

#[test]
fn update_for_a_missing_container_changes_nothing() {
    let x = double(1.0);
    let events = [
        SLMControllerMsg::UpdatePatternL(4, 0, 7),
        SLMControllerMsg::UpdatePatternA(4, 0, x),
        SLMControllerMsg::UpdatePatternKx(4, 0, x),
        SLMControllerMsg::UpdatePatternKy(4, 0, x),
        SLMControllerMsg::UpdatePatternCx(4, 0, x),
        SLMControllerMsg::UpdatePatternCy(4, 0, x),
        SLMControllerMsg::UpdatePatternPhase(4, 0, x),
        SLMControllerMsg::UpdateContainerCx(4, x),
        SLMControllerMsg::UpdateContainerCy(4, x),
        SLMControllerMsg::UpdateContainerScaleX(4, x),
        SLMControllerMsg::UpdateContainerScaleY(4, x),
        SLMControllerMsg::UpdateContainerTLX(4, x),
        SLMControllerMsg::UpdateContainerTLY(4, x),
        SLMControllerMsg::UpdateContainerBRX(4, x),
        SLMControllerMsg::UpdateContainerBRY(4, x),
        SLMControllerMsg::RemoveController(4, 0),
    ];
    let mut controller = two_by_two();
    let before = snapshot(&controller);
    let ids = counters(&controller);
    for event in events {
        assert_eq!(controller.update(event), Action::Render);
        assert_eq!(snapshot(&controller), before);
        assert_eq!(counters(&controller), ids);
    }
}

#[test]
fn update_for_a_missing_pattern_changes_nothing() {
    let mut controller = two_by_two();
    let before = snapshot(&controller);
    let ids = counters(&controller);
    controller.update(SLMControllerMsg::UpdatePatternL(0, 2, 7));
    controller.update(SLMControllerMsg::UpdatePatternPhase(1, 99, double(1.0)));
    assert_eq!(snapshot(&controller), before);
    assert_eq!(counters(&controller), ids);
}

#[test]
fn messages_that_ask_first_change_nothing() {
    let mut controller = two_by_two();
    let before = snapshot(&controller);
    let ids = counters(&controller);
    assert_eq!(controller.update(SLMControllerMsg::Quit), Action::Quit);
    assert_eq!(controller.update(SLMControllerMsg::RemoveAllTabs), Action::ConfirmRemoveAll);
    assert_eq!(controller.update(SLMControllerMsg::SaveContainers), Action::ChooseSaveDestination);
    assert_eq!(controller.update(SLMControllerMsg::LoadContainers), Action::ChooseLoadSource);
    assert_eq!(controller.update(SLMControllerMsg::RemoveTab(0)), Action::ConfirmRemove(0));
    assert_eq!(snapshot(&controller), before);
    assert_eq!(counters(&controller), ids);
}

#[test]
fn tabs_show_containers_in_ascending_order() {
    let mut controller = SLMController::new(SLMController::model(()));
    for _ in 0..6 {
        controller.update(SLMControllerMsg::AddTab);
    }
    controller.remove_container(0, true);
    controller.remove_container(3, true);
    assert_eq!(controller.container_ids(), vec![1, 2, 4, 5]);
    assert_eq!(controller.container_at(0), Some(1));
    assert_eq!(controller.container_at(1), Some(2));
    assert_eq!(controller.container_at(2), Some(4));
    assert_eq!(controller.container_at(3), Some(5));
    assert_eq!(controller.container_at(4), None);
    assert_eq!(controller.update(SLMControllerMsg::RemoveTab(2)), Action::ConfirmRemove(4));
    assert_eq!(controller.update(SLMControllerMsg::RemoveTab(4)), Action::Render);
    assert_eq!(controller.update(SLMControllerMsg::RemoveTab(usize::MAX)), Action::Render);
    assert_eq!(controller.len(), 4);
    let mut empty = SLMController::new(SLMController::model(()));
    assert_eq!(empty.update(SLMControllerMsg::RemoveTab(0)), Action::Render);
}

#[test]
fn every_message_is_accepted_while_ids_last() {
    let controller = two_by_two();
    assert!(controller.can_add_container());
    assert!(controller.accepts(&SLMControllerMsg::AddTab));
    assert!(controller.accepts(&SLMControllerMsg::AddController(0, PatternData::default())));
    assert!(controller.accepts(&SLMControllerMsg::AddController(7, PatternData::default())));
    assert!(controller.accepts(&SLMControllerMsg::Quit));
    assert!(controller.container(0).unwrap().can_add_pattern());
    assert!(controller.can_deliver(0, &PatternContainerMsg::AddPattern));
    assert!(controller.can_deliver(7, &PatternContainerMsg::AddPattern));
    assert!(controller.container(0).unwrap().accepts(&PatternContainerMsg::AddPattern));
}

#[test]
fn container_handles_its_own_events() {
    let mut data = PatternContainerData::default();
    data.scale = (double(2.0), double(3.0));
    let mut container = PatternContainer::new(PatternContainer::model((data, 4)));
    assert_eq!(container.id(), 4);
    assert_eq!(container.add_new_pattern(), 0);
    assert_eq!(container.add_pattern(pattern(1, 1.0, (1.0, 1.0), (1.0, 1.0), 1.0)), 1);
    container.handle(PatternContainerMsg::AddPattern);
    assert_eq!(container.next_pattern_id(), 3);
    container.handle(PatternContainerMsg::DeletePattern(0));
    container.delete_pattern(0);
    container.handle(PatternContainerMsg::UpdatePatternKy(1, double(8.0)));
    container.handle(PatternContainerMsg::UpdatePatternKy(0, double(8.0)));
    container.handle(PatternContainerMsg::UpdateContainerTLY(double(-1.0)));
    assert_eq!(container.pattern(0), None);
    assert_eq!(container.pattern(1), Some(pattern(1, 1.0, (1.0, 8.0), (1.0, 1.0), 1.0)));
    assert_eq!(container.pattern(2), Some(PatternData::default()));
    assert_eq!(container.data().top_left, (double(0.0), double(-1.0)));
    assert_eq!(container.data().scale, (double(2.0), double(3.0)));
    assert_eq!(container.data().patterns.len(), 2);
    assert_eq!(container.next_pattern_id(), 3);
    let controller = container.controller(1).unwrap();
    assert_eq!(controller.model.id, 1);
    assert_eq!(controller.model.pattern_data, container.pattern(1).unwrap());
    assert!(container.controller(0).is_none());
}

#[test]
fn delivery_is_what_the_container_does() {
    let mut by_message = two_by_two();
    let mut by_delivery = two_by_two();
    let events = [
        PatternContainerMsg::AddPattern,
        PatternContainerMsg::UpdatePatternA(2, double(4.0)),
        PatternContainerMsg::UpdateContainerBRY(double(6.0)),
        PatternContainerMsg::DeletePattern(0),
    ];
    for event in events {
        let routed = by_message.container(1).unwrap().update(event);
        by_message.update(routed);
        by_delivery.deliver(1, event);
        by_delivery.deliver(8, event);
    }
    assert_eq!(snapshot(&by_message), snapshot(&by_delivery));
    assert_eq!(counters(&by_message), counters(&by_delivery));
    let data = snapshot(&by_message);
    assert_eq!(data[&1].patterns.len(), 2);
    assert_eq!(data[&1].patterns[&2], PatternData { a: double(4.0), ..PatternData::default() });
    assert_eq!(data[&1].bottom_right, (double(0.0), double(6.0)));
}
