use input_filter::config::{ConfigurationError, FilterStage, InputFilterConfiguration};
use input_filter::event::{DeviceInfo, KeyEvent, KeyEventAction};
use input_filter::input_filter::{DevicesDispatch, InputFilter, KeyDispatch};

const SOURCE_KEYBOARD: i32 = 0x101;

fn create_key_event() -> KeyEvent {
    KeyEvent {
        id: 1,
        device_id: 1,
        down_time: 0,
        read_time: 0,
        event_time: 0,
        source: SOURCE_KEYBOARD,
        display_id: 0,
        policy_flags: 0,
        action: KeyEventAction::Down,
        flags: 0,
        key_code: 0,
        scan_code: 0,
        meta_state: 0,
    }
}

fn all_features() -> InputFilterConfiguration {
    InputFilterConfiguration {
        sticky_keys_enabled: true,
        slow_keys_threshold_ns: 100,
        bounce_keys_threshold_ns: 100,
    }
}

#[test]
fn test_not_enabled_with_default_filter() {
    let input_filter = InputFilter::new();
    let result = input_filter.is_enabled();
    assert!(!result);
}

#[test]
fn test_notify_key_with_no_filters() {
    let input_filter = InputFilter::new();
    let event = create_key_event();
    assert_eq!(input_filter.notify_key(&event), KeyDispatch::ToReceiver(event));
}

#[test]
fn test_notify_key_with_filter() {
    let input_filter = InputFilter::create_input_filter(FilterStage::StickyKeys);
    let event = create_key_event();
    assert_eq!(
        input_filter.notify_key(&event),
        KeyDispatch::ToStage { generation: 0, stage: FilterStage::StickyKeys, event }
    );
}

#[test]
fn test_notify_devices_changed() {
    let input_filter = InputFilter::create_input_filter(FilterStage::StickyKeys);
    let devices = [DeviceInfo { device_id: 0, external: true }];
    match input_filter.notify_input_devices_changed(&devices) {
        DevicesDispatch::ToStage { generation, stage, device_infos } => {
            assert_eq!(generation, 0);
            assert_eq!(stage, FilterStage::StickyKeys);
            assert_eq!(device_infos, devices.to_vec());
        }
        DevicesDispatch::Ignored => panic!("the device list did not reach the stage"),
    }
}

#[test]
fn test_notify_configuration_changed_enabled_bounce_keys() {
    let mut input_filter = InputFilter::new();
    let result = input_filter.notify_configuration_changed(
        &InputFilterConfiguration { bounce_keys_threshold_ns: 100, ..Default::default() },
        true,
    );
    assert!(result.is_ok());
    assert!(input_filter.is_enabled());
}

#[test]
fn test_notify_configuration_changed_enabled_sticky_keys() {
    let mut input_filter = InputFilter::new();
    let result = input_filter.notify_configuration_changed(
        &InputFilterConfiguration { sticky_keys_enabled: true, ..Default::default() },
        true,
    );
    assert!(result.is_ok());
    assert!(input_filter.is_enabled());
}

#[test]
fn test_notify_configuration_changed_enabled_slow_keys() {
    let mut input_filter = InputFilter::new();
    let result = input_filter.notify_configuration_changed(
        &InputFilterConfiguration { slow_keys_threshold_ns: 100, ..Default::default() },
        true,
    );
    assert!(result.is_ok());
    assert!(input_filter.is_enabled());
}

#[test]
fn test_notify_configuration_changed_destroys_existing_filters() {
    let mut input_filter = InputFilter::create_input_filter(FilterStage::StickyKeys);
    let rebuild = input_filter
        .notify_configuration_changed(&InputFilterConfiguration { ..Default::default() }, true)
        .unwrap();
    assert!(rebuild.destroyed.contains(&FilterStage::StickyKeys));
}

#[test]
fn default_configuration_leaves_filter_off() {
    let mut input_filter = InputFilter::new();
    let rebuild = input_filter
        .notify_configuration_changed(&InputFilterConfiguration::default(), false)
        .unwrap();
    assert!(!input_filter.is_enabled());
    assert_eq!(rebuild.destroyed, vec![FilterStage::Base]);
    assert_eq!(rebuild.installed, vec![FilterStage::Base]);
    assert_eq!(rebuild.generation, 1);
}

#[test]
fn all_features_wrap_in_fixed_order() {
    let mut input_filter = InputFilter::new();
    let rebuild = input_filter.notify_configuration_changed(&all_features(), true).unwrap();
    assert_eq!(
        rebuild.installed,
        vec![
            FilterStage::BounceKeys { threshold_ns: 100 },
            FilterStage::SlowKeys { threshold_ns: 100 },
            FilterStage::StickyKeys,
            FilterStage::Base,
        ]
    );
    let event = create_key_event();
    assert_eq!(
        input_filter.notify_key(&event),
        KeyDispatch::ToStage {
            generation: 1,
            stage: FilterStage::BounceKeys { threshold_ns: 100 },
            event,
        }
    );
}

#[test]
fn sticky_keys_only_receives_key_down_unchanged() {
    let mut input_filter = InputFilter::new();
    input_filter
        .notify_configuration_changed(
            &InputFilterConfiguration { sticky_keys_enabled: true, ..Default::default() },
            true,
        )
        .unwrap();
    let event = KeyEvent { scan_code: 42, ..create_key_event() };
    match input_filter.notify_key(&event) {
        KeyDispatch::ToStage { stage, event: handed, .. } => {
            assert_eq!(stage, FilterStage::StickyKeys);
            assert_eq!(handed.scan_code, 42);
            assert_eq!(handed.id, 1);
            assert_eq!(handed, event);
        }
        KeyDispatch::ToReceiver(_) => panic!("the sticky keys stage was skipped"),
    }
}

#[test]
fn back_to_default_destroys_all_three_stages() {
    let mut input_filter = InputFilter::new();
    input_filter.notify_configuration_changed(&all_features(), true).unwrap();
    assert!(input_filter.is_enabled());
    let rebuild = input_filter
        .notify_configuration_changed(
            &InputFilterConfiguration {
                sticky_keys_enabled: false,
                slow_keys_threshold_ns: 0,
                bounce_keys_threshold_ns: 0,
            },
            true,
        )
        .unwrap();
    assert!(!input_filter.is_enabled());
    assert_eq!(
        rebuild.destroyed,
        vec![
            FilterStage::BounceKeys { threshold_ns: 100 },
            FilterStage::SlowKeys { threshold_ns: 100 },
            FilterStage::StickyKeys,
            FilterStage::Base,
        ]
    );
    assert_eq!(rebuild.generation, 2);
    let event = create_key_event();
    assert_eq!(input_filter.notify_key(&event), KeyDispatch::ToReceiver(event));
}

#[test]
fn negative_slow_keys_threshold_is_rejected() {
    let mut input_filter = InputFilter::create_input_filter(FilterStage::StickyKeys);
    let result = input_filter.notify_configuration_changed(
        &InputFilterConfiguration { slow_keys_threshold_ns: -1, bounce_keys_threshold_ns: -1, ..Default::default() },
        true,
    );
    assert_eq!(result.unwrap_err(), ConfigurationError::NegativeSlowKeysThreshold);
    let event = create_key_event();
    assert_eq!(
        input_filter.notify_key(&event),
        KeyDispatch::ToStage { generation: 0, stage: FilterStage::StickyKeys, event }
    );
}

#[test]
fn negative_bounce_keys_threshold_is_rejected() {
    let mut input_filter = InputFilter::new();
    let result = input_filter.notify_configuration_changed(
        &InputFilterConfiguration { sticky_keys_enabled: true, bounce_keys_threshold_ns: -5, ..Default::default() },
        true,
    );
    assert_eq!(result.unwrap_err(), ConfigurationError::NegativeBounceKeysThreshold);
    assert!(!input_filter.is_enabled());
}

#[test]
fn missing_timer_thread_is_rejected() {
    let mut input_filter = InputFilter::new();
    let result = input_filter.notify_configuration_changed(
        &InputFilterConfiguration { slow_keys_threshold_ns: 100, ..Default::default() },
        false,
    );
    assert_eq!(result.unwrap_err(), ConfigurationError::TimerThreadUnavailable);
    assert!(!input_filter.is_enabled());
    let sticky = input_filter.notify_configuration_changed(
        &InputFilterConfiguration { sticky_keys_enabled: true, ..Default::default() },
        false,
    );
    assert!(sticky.is_ok());
    assert!(input_filter.is_enabled());
}

#[test]
fn devices_ignored_by_base_stage() {
    let input_filter = InputFilter::new();
    let devices = [DeviceInfo { device_id: 3, external: false }];
    assert!(matches!(input_filter.notify_input_devices_changed(&devices), DevicesDispatch::Ignored));
}

#[test]
fn plan_chain_and_checks() {
    let config = InputFilterConfiguration { slow_keys_threshold_ns: 7, ..Default::default() };
    assert_eq!(
        config.plan_chain(),
        vec![FilterStage::SlowKeys { threshold_ns: 7 }, FilterStage::Base]
    );
    assert!(config.uses_timer_thread());
    assert!(config.check().is_ok());
    assert!(!InputFilterConfiguration { sticky_keys_enabled: true, ..Default::default() }.uses_timer_thread());
}
