use elysium::angle::Angle;
use elysium::command::Command;
use elysium::draw::{
    classify_model, flat_black, player_highlight, starts_with, view_model_alpha, ModelClass,
};
use elysium::controls::Controls;
use elysium::entity::{eye_offset, magazine_of, Exposure, ExposureBound};
use elysium::library::{find_interface, is_exact, name_matches};
use elysium::menu::MenuState;
use elysium::pipeline::MovementState;
use elysium::pose::{
    BoneTransform, PoseBranch, PoseCache, POSE_BONES, PRIMARY_BONE_MASK, SECONDARY_BONE_MASK,
};
use elysium::record::is_record_valid;
use elysium::sdk::DataUpdateKind;
use elysium::vector::Vec3;
use elysium::weapon::WeaponKind;

#[test]
fn exact_lookup_targets_end_in_digits() {
    assert!(is_exact("VClient018"));
    assert!(is_exact("VEngineCvar007"));
    assert!(!is_exact("VClient"));
    assert!(!is_exact("ab1"));
    // A short all-digit target is exact too.
    assert!(is_exact("12"));
    assert!(is_exact(""));
}

#[test]
fn name_matching_with_and_without_version() {
    assert!(name_matches("VClient018", "VClient018"));
    assert!(!name_matches("VClient017", "VClient018"));
    assert!(name_matches("VClient018", "VClient"));
    assert!(!name_matches("VClient018", "VClien"));
    assert!(!name_matches("ab", "VClient"));
}

#[test]
fn interface_lookup_finds_first_match() {
    let names = vec![
        String::from("VEngineCvar007"),
        String::from("VClient018"),
        String::from("VClient019"),
    ];
    assert_eq!(find_interface(&names, "VClient"), Some(1));
    assert_eq!(find_interface(&names, "VClient019"), Some(2));
    assert_eq!(find_interface(&names, "VGuiPanel"), None);
}

#[test]
fn menu_toggle_latches_until_release() {
    let mut menu = MenuState::new();
    assert!(!menu.open);
    menu.toggle_menu();
    assert!(menu.open && menu.held);
    // A held key must not flip the menu again.
    menu.toggle_menu();
    assert!(menu.open);
    menu.release_menu_toggle();
    assert!(!menu.held);
    menu.toggle_menu();
    assert!(!menu.open);
}

#[test]
fn eye_offset_falls_back_by_duck_state() {
    let zero = Vec3 { x: 0, y: 0, z: 0 };
    assert_eq!(eye_offset(zero, false).z, 65_536);
    assert_eq!(eye_offset(zero, true).z, 47_104);
    let set = Vec3 { x: 0, y: 0, z: 60_000 };
    assert_eq!(eye_offset(set, true), set);
}

#[test]
fn magazine_reads_low_bits_or_nothing() {
    assert_eq!(magazine_of(-1), None);
    assert_eq!(magazine_of(0), Some(0));
    assert_eq!(magazine_of(30), Some(30));
    assert_eq!(magazine_of(0x1_0005), Some(5));
}

#[test]
fn exposure_round_trips_through_netvars() {
    let e = Exposure::from_bounds(ExposureBound::Included(3), ExposureBound::Included(9));
    assert_eq!(e.to_netvars(), (true, true, 3, 9));
    let open_top = Exposure::from_bounds(ExposureBound::Included(3), ExposureBound::Unbounded);
    assert_eq!(open_top.to_netvars(), (true, false, 3, 0x7fff_ffff));
    let excl = Exposure::from_bounds(ExposureBound::Excluded(3), ExposureBound::Excluded(0));
    assert_eq!(excl.to_netvars(), (true, true, 2, 0));

    let read = Exposure::from_netvars(true, true, 1, 7).unwrap();
    assert_eq!(read.start, ExposureBound::Included(1));
    assert_eq!(read.end, ExposureBound::Included(7));
    let below = Exposure::from_netvars(false, true, 4, 9).unwrap();
    assert_eq!(below.start, ExposureBound::Unbounded);
    // The host reads the minimum slot for a one-sided upper bound.
    assert_eq!(below.end, ExposureBound::Included(4));
    assert!(Exposure::from_netvars(false, false, 0, 0).is_none());
}

#[test]
fn weapon_kind_codes() {
    assert_eq!(WeaponKind::Knife.as_i32(), 0);
    assert_eq!(WeaponKind::Rifle.as_i32(), 3);
    assert_eq!(WeaponKind::Grenade.as_i32(), 9);
    assert_eq!(WeaponKind::Melee.as_i32(), 16);
}

#[test]
fn record_validity_window() {
    // A record within the unlag window, with the delay sum small and the
    // tick base cancelling the simulation time.
    assert!(is_record_valid(
        102_400, 102_502, 205, 31, 2_048, 1_024, 2_048, 65_536, 65_536, 20, 20, -102_375,
    ));
    // A record older than the window is rejected outright.
    assert!(!is_record_valid(
        102_000, 102_502, 205, 31, 2_048, 1_024, 2_048, 65_536, 65_536, 20, 20, -102_375,
    ));
    // One whose delta leaves the window is rejected too.
    assert!(!is_record_valid(
        102_400, 102_502, 205, 31, 2_048, 1_024, 2_048, 65_536, 65_536, 20, 20, 102_350,
    ));
}

#[test]
fn pose_cache_keeps_unselected_branch() {
    let mut cache = PoseCache::new();
    assert_eq!(cache.transmitted.bones.len(), POSE_BONES);
    assert_eq!(cache.true_pose.bones.len(), POSE_BONES);

    let mark = |v: i64| {
        let mut bones = Vec::new();
        for _ in 0..POSE_BONES {
            bones.push(BoneTransform { cells: [v; 12] });
        }
        bones
    };
    let angle_a = Angle { pitch: 1, yaw: 2, roll: 3 };
    cache.store_pose(PoseBranch::True, mark(7), PRIMARY_BONE_MASK, angle_a, 100);
    assert_eq!(cache.true_pose.bones[0].cells[0], 7);
    assert_eq!(cache.transmitted.bones[0].cells[0], 0);
    // A true-branch store records the applied view angle and time.
    assert_eq!(cache.current_view_angle(), angle_a);
    assert_eq!(cache.current_time(), 100);

    let angle_b = Angle { pitch: 4, yaw: 5, roll: 6 };
    cache.store_pose(PoseBranch::Transmitted, mark(9), SECONDARY_BONE_MASK, angle_b, 200);
    assert_eq!(cache.transmitted.bones[0].cells[0], 9);
    // The true branch is untouched, and so are the recorded view values.
    assert_eq!(cache.true_pose.bones[0].cells[0], 7);
    assert_eq!(cache.current_view_angle(), angle_a);
    assert_eq!(cache.current_time(), 100);

    let t = cache.get_pose_buffer(PoseBranch::Transmitted);
    assert_eq!(t.mask, SECONDARY_BONE_MASK);
    let k = cache.get_pose_buffer(PoseBranch::True);
    assert_eq!(k.mask, PRIMARY_BONE_MASK);
}

#[test]
fn zeroed_constructors() {
    let cmd = Command::zeroed();
    assert_eq!(cmd.tick_count, 0);
    assert!(!cmd.attack && !cmd.duck && !cmd.jump && !cmd.fast_duck);
    let st = MovementState::new();
    assert_eq!(st.old_yaw, 0);
    assert_eq!(st.last_command, 0);
    assert_eq!(st.fake_lag_cadence, 0);
    let _panel = Controls::new();
    let kind = DataUpdateKind::Created;
    assert!(matches!(kind, DataUpdateKind::Created));
    assert!(matches!(DataUpdateKind::Changed, DataUpdateKind::Changed));
}

#[test]
fn model_classification_by_asset_path() {
    assert!(starts_with("models/player/tm_phoenix.mdl", "models/player"));
    assert!(!starts_with("models/props/crate.mdl", "models/player"));
    assert!(matches!(classify_model("models/player/tm_phoenix.mdl"), ModelClass::Player));
    assert!(matches!(classify_model("models/weapons/v_rif_ak47.mdl"), ModelClass::ViewModel));
    assert!(matches!(classify_model("models/props/crate.mdl"), ModelClass::Other));
    assert!(matches!(classify_model(""), ModelClass::Other));
}

#[test]
fn highlight_colors_by_relation() {
    let purple = (400, 0, 1000, 400);
    let as_tuple = |c: elysium::draw::Rgba| (c.red, c.green, c.blue, c.alpha);
    let (local, z_local) = player_highlight(true, true, true);
    assert_eq!(as_tuple(local), purple);
    assert!(!z_local);
    let (bot, z_bot) = player_highlight(false, false, true);
    assert_eq!(as_tuple(bot), purple);
    assert!(!z_bot);
    let (enemy, z_enemy) = player_highlight(false, true, false);
    assert_eq!(as_tuple(enemy), (1000, 0, 0, 500));
    assert!(z_enemy);
    let (enemy_bot, z_eb) = player_highlight(false, true, true);
    assert_eq!(as_tuple(enemy_bot), (1000, 500, 0, 500));
    assert!(z_eb);
    let (other, z_other) = player_highlight(false, false, false);
    assert_eq!(as_tuple(other), (1000, 1000, 1000, 500));
    assert!(!z_other);
    assert_eq!(as_tuple(flat_black()), (0, 0, 0, 1000));
}

#[test]
fn view_model_fades_when_scoped() {
    assert_eq!(view_model_alpha(true), 200);
    assert_eq!(view_model_alpha(false), 400);
}
