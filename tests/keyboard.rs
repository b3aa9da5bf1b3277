use embassy_futures::select::{Either, Either4};
use rmk::bootstrap::bootstrap;
use rmk::config::{RmkConfig, VialConfig};
use rmk::keymap::{Geometry, KeyAction, KeyMap};
use rmk::race::{blame_with_store, blame_without_store};
use rmk::storage::{Snapshot, Storage, StorageConfig};
use rmk::supervisor::{jobs, Action, Event, Job, Phase, Supervisor, BACKOFF_MILLIS};

fn g221() -> Geometry {
    Geometry { layers: 1, rows: 2, cols: 2 }
}

fn default_grid() -> KeyMap {
    KeyMap::new(g221(), vec![KeyAction(4), KeyAction(5), KeyAction(6), KeyAction(7)]).unwrap()
}

fn actions_of(k: &KeyMap) -> Vec<KeyAction> {
    k.snapshot().actions
}

#[test]
fn scenario_a_no_flash_restarts_four_way_race() {
    let b = bootstrap(default_grid(), None);
    assert!(b.storage.is_none());
    assert!(!b.reseeded);
    assert_eq!(actions_of(&b.keymap), actions_of(&default_grid()));
    let mut sup = b.supervisor;
    assert!(!sup.with_store());
    let four = vec![Job::Usb, Job::Keyboard, Job::Led, Job::Via];
    assert_eq!(sup.race(), four);
    let r = sup.step(Event::Resolved(Job::Keyboard));
    assert_eq!(r, vec![Action::LogError(Job::Keyboard), Action::LogWarning, Action::Pause(1000)]);
    assert_eq!(Job::Keyboard.died_message(), "Keyboard task is died");
    assert!(BACKOFF_MILLIS >= 1000);
    assert_eq!(sup.phase(), Phase::Recovering);
    assert_eq!(sup.step(Event::BackoffElapsed), vec![Action::StartRace]);
    assert_eq!(sup.phase(), Phase::Running);
    assert_eq!(sup.race(), four);
}

#[test]
fn scenario_b_remote_edit_survives_power_cycle() {
    let store = Storage::new(StorageConfig::new(), None);
    let b = bootstrap(default_grid(), Some(store));
    assert!(b.supervisor.with_store());
    assert!(b.reseeded);
    assert_eq!(actions_of(&b.keymap), actions_of(&default_grid()));
    let mut keymap = b.keymap;
    let mut store = b.storage.unwrap();
    assert_eq!(store.snapshot().unwrap().actions, actions_of(&default_grid()));
    assert!(keymap.set_action(0, 1, 0, KeyAction(42)));
    store.persist(&keymap);
    // power cycle: only what was written to flash survives
    let flash = store.snapshot();
    let again = bootstrap(default_grid(), Some(Storage::new(StorageConfig::new(), flash)));
    assert!(!again.reseeded);
    assert_eq!(again.keymap.get_action(0, 1, 0), Some(KeyAction(42)));
    assert_eq!(again.keymap.get_action(0, 0, 0), Some(KeyAction(4)));
}

#[test]
fn every_job_death_logs_warns_pauses_and_restarts() {
    for with_store in [false, true] {
        for job in jobs(with_store) {
            let mut sup = Supervisor::new(with_store);
            assert_eq!(
                sup.step(Event::Resolved(job)),
                vec![Action::LogError(job), Action::LogWarning, Action::Pause(1000)]
            );
            assert_eq!(sup.step(Event::BackoffElapsed), vec![Action::StartRace]);
            assert_eq!(sup.race(), jobs(with_store));
            assert_eq!(sup.with_store(), with_store);
        }
    }
}

#[test]
fn with_store_races_five_jobs_in_polling_order() {
    assert_eq!(
        Supervisor::new(true).race(),
        vec![Job::Usb, Job::Keyboard, Job::Storage, Job::Led, Job::Via]
    );
}

#[test]
fn no_store_never_persists_nor_blames_persistence() {
    let mut sup = Supervisor::new(false);
    assert!(!sup.race().contains(&Job::Storage));
    assert_eq!(sup.step(Event::Resolved(Job::Storage)), vec![]);
    assert_eq!(sup.phase(), Phase::Running);
    for o in [
        Either4::First(()),
        Either4::Second(()),
        Either4::Third(()),
        Either4::Fourth(()),
    ] {
        assert_ne!(blame_without_store::<(), (), (), ()>(&o), Job::Storage);
    }
}

#[test]
fn stray_events_change_nothing() {
    let mut sup = Supervisor::new(true);
    assert_eq!(sup.step(Event::BackoffElapsed), vec![]);
    assert_eq!(sup.phase(), Phase::Running);
    sup.step(Event::Resolved(Job::Via));
    assert_eq!(sup.step(Event::Resolved(Job::Usb)), vec![]);
    assert_eq!(sup.phase(), Phase::Recovering);
}

#[test]
fn died_messages_name_each_subsystem() {
    assert_eq!(Job::Usb.died_message(), "Usb task is died");
    assert_eq!(Job::Storage.died_message(), "Storage task is died");
    assert_eq!(Job::Led.died_message(), "Led task is died");
    assert_eq!(Job::Via.died_message(), "Via task is died");
}

#[test]
fn blame_follows_nested_pairing() {
    type O = Either4<Either<u8, u8>, u8, u8, u8>;
    let cases: Vec<(O, Job)> = vec![
        (Either4::First(Either::First(0)), Job::Usb),
        (Either4::First(Either::Second(0)), Job::Keyboard),
        (Either4::Second(0), Job::Storage),
        (Either4::Third(0), Job::Led),
        (Either4::Fourth(0), Job::Via),
    ];
    for (o, j) in cases {
        assert_eq!(blame_with_store(&o), j);
    }
    assert_eq!(blame_without_store::<u8, u8, u8, u8>(&Either4::Second(1)), Job::Keyboard);
}

#[test]
fn bootstrap_twice_from_empty_store_is_identical() {
    let b1 = bootstrap(default_grid(), Some(Storage::new(StorageConfig::new(), None)));
    let b2 = bootstrap(default_grid(), b1.storage);
    assert_eq!(actions_of(&b1.keymap), actions_of(&b2.keymap));
    assert_eq!(b2.storage.unwrap().snapshot().unwrap().actions, actions_of(&default_grid()));
}

#[test]
fn bootstrap_keeps_snapshot_over_other_default() {
    let stored = Snapshot { geometry: g221(), actions: vec![KeyAction(1), KeyAction(2), KeyAction(3), KeyAction(8)] };
    let b = bootstrap(default_grid(), Some(Storage::new(StorageConfig::new(), Some(stored))));
    assert!(!b.reseeded);
    assert_eq!(actions_of(&b.keymap), vec![KeyAction(1), KeyAction(2), KeyAction(3), KeyAction(8)]);
}

#[test]
fn bootstrap_reseeds_snapshot_of_other_geometry() {
    let stored = Snapshot {
        geometry: Geometry { layers: 1, rows: 1, cols: 4 },
        actions: vec![KeyAction(1), KeyAction(2), KeyAction(3), KeyAction(8)],
    };
    let b = bootstrap(default_grid(), Some(Storage::new(StorageConfig::new(), Some(stored))));
    assert_eq!(actions_of(&b.keymap), actions_of(&default_grid()));
    let s = b.storage.unwrap().snapshot().unwrap();
    assert_eq!(s.geometry, g221());
    assert_eq!(s.actions, actions_of(&default_grid()));
}

#[test]
fn bootstrap_reseeds_short_snapshot() {
    let stored = Snapshot { geometry: g221(), actions: vec![KeyAction(1)] };
    let b = bootstrap(default_grid(), Some(Storage::new(StorageConfig::new(), Some(stored))));
    assert_eq!(actions_of(&b.keymap), actions_of(&default_grid()));
}

#[test]
fn keymap_rejects_wrong_cell_count() {
    assert!(KeyMap::new(g221(), vec![KeyAction(0); 3]).is_none());
    assert!(KeyMap::new(Geometry { layers: 0, rows: 2, cols: 2 }, vec![]).is_some());
}

#[test]
fn keymap_indexes_layer_major() {
    let g = Geometry { layers: 2, rows: 2, cols: 3 };
    let k = KeyMap::new(g, (0..12).map(KeyAction).collect()).unwrap();
    assert_eq!(k.get_action(1, 0, 2), Some(KeyAction(8)));
    assert_eq!(k.get_action(0, 1, 0), Some(KeyAction(3)));
    assert_eq!(k.get_action(2, 0, 0), None);
    assert_eq!(k.get_action(0, 2, 0), None);
    assert_eq!(k.get_action(0, 0, 3), None);
    assert_eq!(g.flat_index(1, 1, 1, 12), 10);
}

#[test]
fn set_action_outside_grid_changes_nothing() {
    let mut k = default_grid();
    assert!(!k.set_action(1, 0, 0, KeyAction(99)));
    assert_eq!(actions_of(&k), actions_of(&default_grid()));
}

#[test]
fn num_cells_detects_overflow() {
    assert_eq!(Geometry { layers: 3, rows: 4, cols: 5 }.num_cells(), Some(60));
    assert_eq!(Geometry { layers: usize::MAX, rows: 2, cols: 1 }.num_cells(), None);
    assert_eq!(Geometry { layers: usize::MAX, rows: 2, cols: 0 }.num_cells(), Some(0));
}

#[test]
fn minimal_config_takes_default_persistence() {
    static ID: [u8; 2] = [1, 2];
    static DEF: [u8; 1] = [3];
    let c = RmkConfig::with_vial((), (), VialConfig::new(&ID, &DEF));
    assert_eq!(c.storage_config, StorageConfig { start_addr: 0, num_sectors: 2 });
    assert_eq!(c.vial_config.vial_keyboard_id, &[1, 2]);
}
