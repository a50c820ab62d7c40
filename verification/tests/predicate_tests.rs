use sonic_spinball::levels::Levels;
use sonic_spinball::settings::Settings;
use sonic_spinball::state::{State, Watchers};
use sonic_spinball::watcher::{Pair, Watcher};

fn all_on() -> Settings {
    Settings::default()
}

fn pair<T: Copy>(previous: T, current: T) -> Watcher<T> {
    Watcher { pair: Some(Pair { previous, current }) }
}

fn bank() -> Watchers {
    Watchers {
        levelid: Watcher::new(),
        state: Watcher::new(),
        menu_timeout: Watcher::new(),
        menu_trigger: Watcher::new(),
        menu_selection: Watcher::new(),
    }
}

fn start_ready() -> State {
    State {
        settings: Some(all_on()),
        watchers: Watchers {
            menu_selection: pair(15, 0),
            state: pair(0, 0),
            menu_timeout: pair(11, 0),
            menu_trigger: pair(3, 2),
            ..bank()
        },
    }
}

#[test]
fn start_fires_on_the_full_sequence() {
    assert!(start_ready().start());
    let mut s = start_ready();
    s.watchers.menu_selection = pair(1, 0);
    assert!(s.start());
}

#[test]
fn start_needs_every_condition() {
    let mut s = start_ready();
    s.settings.as_mut().unwrap().start = false;
    assert!(!s.start());

    let mut s = start_ready();
    s.watchers.menu_selection = pair(2, 0);
    assert!(!s.start());

    let mut s = start_ready();
    s.watchers.state = pair(0, 1);
    assert!(!s.start());

    let mut s = start_ready();
    s.watchers.menu_timeout = pair(10, 0);
    assert!(!s.start());

    let mut s = start_ready();
    s.watchers.menu_trigger = pair(2, 2);
    assert!(!s.start());

    let mut s = start_ready();
    s.watchers.menu_trigger = pair(3, 3);
    assert!(!s.start());
}

#[test]
fn start_is_false_while_unprimed() {
    let mut s = start_ready();
    s.watchers.menu_trigger = Watcher::new();
    assert!(!s.start());
    let mut s = start_ready();
    s.settings = None;
    assert!(!s.start());
}

#[test]
fn split_fires_once_per_legal_forward_transition() {
    let transitions = [
        (Levels::ToxicCaves, Levels::Bonus1),
        (Levels::Bonus1, Levels::LavaPowerHouse),
        (Levels::LavaPowerHouse, Levels::Bonus2),
        (Levels::Bonus2, Levels::TheMachine),
        (Levels::TheMachine, Levels::Bonus3),
        (Levels::Bonus3, Levels::TheShowdown),
    ];
    for (from, to) in transitions {
        let s = State {
            settings: Some(all_on()),
            watchers: Watchers {
                levelid: pair(from, to),
                state: pair(1, 1),
                ..bank()
            },
        };
        assert!(s.split());

        // Staying put or jumping anywhere else is not a split.
        for other in [
            Levels::ToxicCaves,
            Levels::Bonus1,
            Levels::LavaPowerHouse,
            Levels::Bonus2,
            Levels::TheMachine,
            Levels::Bonus3,
            Levels::TheShowdown,
        ] {
            if other != to {
                let mut stay = s;
                stay.watchers.levelid = pair(from, other);
                assert!(!stay.split());
            }
        }
    }
}

#[test]
fn split_is_false_when_the_segment_flag_is_disabled() {
    let cases: [(Levels, Levels, fn(&mut Settings)); 6] = [
        (Levels::ToxicCaves, Levels::Bonus1, |c| c.toxic_caves = false),
        (Levels::Bonus1, Levels::LavaPowerHouse, |c| c.bonus_1 = false),
        (Levels::LavaPowerHouse, Levels::Bonus2, |c| c.lava_powerhouse = false),
        (Levels::Bonus2, Levels::TheMachine, |c| c.bonus_2 = false),
        (Levels::TheMachine, Levels::Bonus3, |c| c.the_machine = false),
        (Levels::Bonus3, Levels::TheShowdown, |c| c.bonus_3 = false),
    ];
    for (from, to, disable) in cases {
        let mut settings = all_on();
        disable(&mut settings);
        let s = State {
            settings: Some(settings),
            watchers: Watchers {
                levelid: pair(from, to),
                state: pair(1, 1),
                ..bank()
            },
        };
        assert!(!s.split());
    }
}

#[test]
fn showdown_splits_on_the_completion_edge_only() {
    let mk = |phase_previous: u8, phase_current: u8| State {
        settings: Some(all_on()),
        watchers: Watchers {
            levelid: pair(Levels::TheShowdown, Levels::TheShowdown),
            state: pair(phase_previous, phase_current),
            ..bank()
        },
    };
    assert!(mk(2, 4).split());
    assert!(!mk(2, 3).split());
    assert!(!mk(1, 4).split());
    assert!(!mk(4, 2).split());
    assert!(!mk(2, 2).split());

    let mut disabled = mk(2, 4);
    disabled.settings.as_mut().unwrap().the_showdown = false;
    assert!(!disabled.split());
}

#[test]
fn split_is_false_while_unprimed() {
    let s = State {
        settings: Some(all_on()),
        watchers: Watchers {
            levelid: pair(Levels::ToxicCaves, Levels::Bonus1),
            ..bank()
        },
    };
    assert!(!s.split());
}

#[test]
fn reset_fires_exactly_on_the_in_run_to_idle_edge() {
    let mk = |phase_previous: u8, phase_current: u8| State {
        settings: Some(all_on()),
        watchers: Watchers {
            state: pair(phase_previous, phase_current),
            ..bank()
        },
    };
    for old in 1..=6u8 {
        assert!(mk(old, 0).reset());
    }
    assert!(!mk(0, 0).reset());
    assert!(!mk(7, 0).reset());
    assert!(!mk(6, 1).reset());
    assert!(!mk(3, 3).reset());

    let mut disabled = mk(6, 0);
    disabled.settings.as_mut().unwrap().reset = false;
    assert!(!disabled.reset());

    let mut unprimed = mk(6, 0);
    unprimed.watchers.state = Watcher::new();
    assert!(!unprimed.reset());
}

#[test]
fn defaults_enable_everything() {
    let c = Settings::default();
    assert!(
        c.start
            && c.reset
            && c.toxic_caves
            && c.bonus_1
            && c.lava_powerhouse
            && c.bonus_2
            && c.the_machine
            && c.bonus_3
            && c.the_showdown
    );
}
