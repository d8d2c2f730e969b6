use slm_patterns::controller::{Action, SLMController, SLMControllerMsg};
use slm_patterns::slm_data::{Double, PatternData};

fn new_controller() -> SLMController {
    SLMController::new(SLMController::model(()))
}

fn double(x: f64) -> Double {
    Double::from_bits(x.to_bits())
}

#[test]
fn removed_container_id_is_not_given_again() {
    let mut controller = new_controller();
    assert_eq!(controller.update(SLMControllerMsg::AddTab), Action::Render);
    assert!(controller.container(0).is_some());
    controller.remove_container(0, true);
    assert!(controller.container(0).is_none());
    assert_eq!(controller.update(SLMControllerMsg::AddTab), Action::Render);
    assert!(controller.container(0).is_none());
    assert!(controller.container(1).is_some());
    assert_eq!(controller.container(1).unwrap().id(), 1);
    assert_eq!(controller.container_ids(), vec![1]);
    assert_eq!(controller.next_container_id(), 2);
}

#[test]
fn edited_phase_is_what_gets_saved() {
    let mut controller = new_controller();
    controller.update(SLMControllerMsg::AddTab);
    controller.update(SLMControllerMsg::AddController(0, PatternData::default()));
    let phase = double(1.5708);
    controller.update(SLMControllerMsg::UpdatePatternPhase(0, 0, phase));
    let saved = controller.save_containers(true).unwrap();
    assert_eq!(saved.len(), 1);
    let container = &saved[&0];
    let zero = (double(0.0), double(0.0));
    assert_eq!(container.top_left, zero);
    assert_eq!(container.bottom_right, zero);
    assert_eq!(container.pos, zero);
    assert_eq!(container.scale, zero);
    assert_eq!(container.patterns.len(), 1);
    let pattern = container.patterns[&0];
    assert_eq!(f64::from_bits(pattern.phase.to_bits()), 1.5708);
    assert_eq!(pattern.l, 0);
    assert_eq!(pattern.a, double(0.0));
    assert_eq!(pattern.k, zero);
    assert_eq!(pattern.c, zero);
    assert_eq!(pattern, PatternData { phase, ..PatternData::default() });
}

#[test]
fn ids_grow_through_additions_and_removals() {
    let mut controller = new_controller();
    let mut given = Vec::new();
    for round in 0..12usize {
        let id = controller.next_container_id();
        assert!(controller.container(id).is_none());
        controller.update(SLMControllerMsg::AddTab);
        assert!(controller.container(id).is_some());
        given.push(id);
        if round % 3 == 0 {
            controller.remove_container(id, true);
        }
        if round == 7 {
            controller.remove_all_containers(true);
        }
    }
    assert_eq!(given, (0..12).collect::<Vec<usize>>());
    for pair in given.windows(2) {
        assert!(pair[0] < pair[1]);
    }
    assert_eq!(controller.container_ids(), vec![8, 10, 11]);
}

#[test]
fn pattern_ids_grow_through_additions_and_removals() {
    let mut controller = new_controller();
    controller.update(SLMControllerMsg::AddTab);
    assert_eq!(controller.add_pattern(0, PatternData::default()), Some(0));
    assert_eq!(controller.add_pattern(0, PatternData::default()), Some(1));
    controller.update(SLMControllerMsg::RemoveController(0, 1));
    controller.update(SLMControllerMsg::RemoveController(0, 0));
    assert_eq!(controller.container(0).unwrap().data().patterns.len(), 0);
    assert_eq!(controller.add_pattern(0, PatternData::default()), Some(2));
    assert_eq!(controller.container(0).unwrap().next_pattern_id(), 3);
    controller.update(SLMControllerMsg::AddTab);
    assert_eq!(controller.add_pattern(1, PatternData::default()), Some(0));
}
