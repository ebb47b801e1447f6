use ash::vk;
use queue_census::diagnostics::{compose_debug_line, debug_line, timestamp_header};
use queue_census::queues::{
    classify, contains_flags, family_offers, QueueBuckets, QueueFamily, COMPUTE_BIT, GRAPHICS_BIT,
    SPARSE_BINDING_BIT, TRANSFER_BIT,
};
use queue_census::report::{list_string, push_decimal, report, report_line};
use queue_census::setup::{
    instance_request, SEVERITY_ERROR, SEVERITY_INFO, SEVERITY_VERBOSE, SEVERITY_WARNING,
    TYPE_GENERAL, TYPE_PERFORMANCE, TYPE_VALIDATION,
};

fn family(flags: vk::QueueFlags, count: u32) -> QueueFamily {
    QueueFamily { queue_flags: flags.as_raw(), queue_count: count }
}

fn sample_device() -> Vec<QueueFamily> {
    vec![
        family(vk::QueueFlags::GRAPHICS | vk::QueueFlags::COMPUTE | vk::QueueFlags::TRANSFER, 1),
        family(vk::QueueFlags::TRANSFER, 2),
        family(
            vk::QueueFlags::COMPUTE | vk::QueueFlags::TRANSFER | vk::QueueFlags::SPARSE_BINDING,
            0,
        ),
        family(vk::QueueFlags::GRAPHICS | vk::QueueFlags::SPARSE_BINDING, 3),
    ]
}

#[test]
fn capability_bits_match_the_api() {
    assert_eq!(GRAPHICS_BIT, vk::QueueFlags::GRAPHICS.as_raw());
    assert_eq!(COMPUTE_BIT, vk::QueueFlags::COMPUTE.as_raw());
    assert_eq!(TRANSFER_BIT, vk::QueueFlags::TRANSFER.as_raw());
    assert_eq!(SPARSE_BINDING_BIT, vk::QueueFlags::SPARSE_BINDING.as_raw());
}

#[test]
fn message_bits_match_the_api() {
    assert_eq!(SEVERITY_VERBOSE, vk::DebugUtilsMessageSeverityFlagsEXT::VERBOSE.as_raw());
    assert_eq!(SEVERITY_INFO, vk::DebugUtilsMessageSeverityFlagsEXT::INFO.as_raw());
    assert_eq!(SEVERITY_WARNING, vk::DebugUtilsMessageSeverityFlagsEXT::WARNING.as_raw());
    assert_eq!(SEVERITY_ERROR, vk::DebugUtilsMessageSeverityFlagsEXT::ERROR.as_raw());
    assert_eq!(TYPE_GENERAL, vk::DebugUtilsMessageTypeFlagsEXT::GENERAL.as_raw());
    assert_eq!(TYPE_VALIDATION, vk::DebugUtilsMessageTypeFlagsEXT::VALIDATION.as_raw());
    assert_eq!(TYPE_PERFORMANCE, vk::DebugUtilsMessageTypeFlagsEXT::PERFORMANCE.as_raw());
}

#[test]
fn contains_flags_agrees_with_the_api() {
    let all = [0u32, 1, 2, 3, 4, 5, 6, 7, 8, 9, 10, 11, 12, 13, 14, 15, 0x10, 0x1f];
    for &flags in all.iter() {
        for &bit in [GRAPHICS_BIT, COMPUTE_BIT, TRANSFER_BIT, SPARSE_BINDING_BIT].iter() {
            let expected = vk::QueueFlags::from_raw(flags).contains(vk::QueueFlags::from_raw(bit));
            assert_eq!(contains_flags(flags, bit), expected);
        }
    }
    assert!(contains_flags(0b0110, 0b0110));
    assert!(!contains_flags(0b0100, 0b0110));
}

#[test]
fn family_without_queues_offers_nothing() {
    let f = family(vk::QueueFlags::GRAPHICS | vk::QueueFlags::COMPUTE, 0);
    assert!(!family_offers(&f, GRAPHICS_BIT));
    assert!(!family_offers(&f, COMPUTE_BIT));
    let g = family(vk::QueueFlags::GRAPHICS, 4);
    assert!(family_offers(&g, GRAPHICS_BIT));
    assert!(!family_offers(&g, COMPUTE_BIT));
}

#[test]
fn one_device_buckets_by_flag_and_count() {
    let b = classify(&vec![sample_device()]);
    assert_eq!(b.graphics, vec![0, 3]);
    assert_eq!(b.compute, vec![0]);
    assert_eq!(b.transfer, vec![0, 1]);
    assert_eq!(b.sparse_binding, vec![3]);
}

#[test]
fn several_devices_concatenate_in_order() {
    let second = vec![family(vk::QueueFlags::TRANSFER, 1), family(vk::QueueFlags::GRAPHICS, 1)];
    let b = classify(&vec![sample_device(), Vec::new(), second]);
    assert_eq!(b.graphics, vec![0, 3, 1]);
    assert_eq!(b.compute, vec![0]);
    assert_eq!(b.transfer, vec![0, 1, 0]);
    assert_eq!(b.sparse_binding, vec![3]);
}

#[test]
fn same_device_twice_gives_duplicates() {
    let b = classify(&vec![sample_device(), sample_device()]);
    assert_eq!(b.graphics, vec![0, 3, 0, 3]);
    assert_eq!(b.transfer, vec![0, 1, 0, 1]);
}

#[test]
fn no_devices_give_empty_buckets() {
    let b = classify(&Vec::new());
    assert!(b.graphics.is_empty());
    assert!(b.compute.is_empty());
    assert!(b.transfer.is_empty());
    assert!(b.sparse_binding.is_empty());
    let lines = report(&b);
    assert_eq!(
        lines,
        vec!["GRAPHICS: []", "COMPUTE: []", "TRANSFER: []", "SPARSE_BINDING: []"]
    );
}

#[test]
fn add_device_appends_to_existing_buckets() {
    let mut b = QueueBuckets::new();
    b.graphics.push(7);
    b.add_device(&sample_device());
    assert_eq!(b.graphics, vec![7, 0, 3]);
    assert_eq!(b.compute, vec![0]);
}

#[test]
fn report_lines_use_list_notation() {
    let b = classify(&vec![sample_device()]);
    let lines = report(&b);
    assert_eq!(lines.len(), 4);
    assert_eq!(lines[0], "GRAPHICS: [0, 3]");
    assert_eq!(lines[1], "COMPUTE: [0]");
    assert_eq!(lines[2], "TRANSFER: [0, 1]");
    assert_eq!(lines[3], "SPARSE_BINDING: [3]");
    assert_eq!(lines[0], format!("GRAPHICS: {:?}", b.graphics));
}

#[test]
fn list_string_matches_debug_notation() {
    let cases: Vec<Vec<usize>> =
        vec![vec![], vec![0], vec![9, 10, 99, 100], vec![12345, usize::MAX], vec![1, 1, 1]];
    for items in cases.iter() {
        assert_eq!(list_string(items), format!("{:?}", items));
    }
    assert_eq!(report_line("X", &vec![42, 7]), "X: [42, 7]");
}

#[test]
fn push_decimal_appends_digits() {
    let mut s = String::from("n=");
    push_decimal(&mut s, 0);
    assert_eq!(s, "n=0");
    let mut t = String::new();
    push_decimal(&mut t, u64::MAX);
    assert_eq!(t, "18446744073709551615");
    let mut u = String::new();
    push_decimal(&mut u, 1000);
    assert_eq!(u, "1000");
}

#[test]
fn timestamp_header_layout() {
    assert_eq!(timestamp_header(0), "\n\nTIME SINCE UNIX EPOCH (Seconds u64): 0\n");
    assert_eq!(
        timestamp_header(1700000000),
        "\n\nTIME SINCE UNIX EPOCH (Seconds u64): 1700000000\n"
    );
}

#[test]
fn debug_line_lowers_names() {
    let severity = format!("{:?}", vk::DebugUtilsMessageSeverityFlagsEXT::WARNING);
    let kind = format!(
        "{:?}",
        vk::DebugUtilsMessageTypeFlagsEXT::GENERAL | vk::DebugUtilsMessageTypeFlagsEXT::VALIDATION
    );
    let line = debug_line(&severity, &kind, "\"layer loaded\"");
    assert_eq!(
        line,
        format!("[Debug][{}][{}] \"layer loaded\"", severity.to_lowercase(), kind.to_lowercase())
    );
    assert_eq!(debug_line("ERROR", "VALIDATION", "\"x\""), "[Debug][error][validation] \"x\"");
}

#[test]
fn compose_debug_line_keeps_names() {
    assert_eq!(compose_debug_line("INFO", "General", "\"m\""), "[Debug][INFO][General] \"m\"");
    assert_eq!(compose_debug_line("", "", ""), "[Debug][][] ");
}

#[test]
fn instance_request_values() {
    let r = instance_request();
    assert_eq!(r.application_name, "The Black Window");
    assert_eq!(r.engine_name, "Vulkan Tutorial");
    assert_eq!(r.application_version, vk::make_api_version(0, 1, 0, 0));
    assert_eq!(r.engine_version, 4194304);
    assert_eq!(r.api_version, 549453824);
    assert_eq!(vk::api_version_variant(r.api_version), 1);
    assert_eq!(vk::api_version_major(r.api_version), 3);
    assert_eq!(vk::api_version_minor(r.api_version), 0);
    assert_eq!(r.layers, vec!["VK_LAYER_KHRONOS_validation".to_string()]);
    assert_eq!(r.message_severity, 0x1111);
    assert_eq!(r.message_types, 0x7);
}
