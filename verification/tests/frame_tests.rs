use wgputoy::frame::{
    dispatch_grid, plan_dispatches, plan_readback, stage, stage_uniforms, Dispatch, Readback,
    Timestamps, Upload,
};
use wgputoy::keys::Keys;
use wgputoy::layout::BufferId;
use wgputoy::pipeline::Pass;
use wgputoy::shader::WorkgroupSize;
use wgputoy::uniforms::{Mouse, Time};

fn size(x: u32, y: u32, z: u32) -> WorkgroupSize {
    WorkgroupSize { x, y, z }
}

#[test]
fn dispatch_grid_of_full_hd() {
    let dispatch = dispatch_grid(1920, 1080, size(8, 8, 1), None);
    assert_eq!(dispatch, Dispatch { x: 240, y: 135, z: 1, timestamps: None });
}

#[test]
fn dispatch_grid_rounds_up() {
    assert_eq!(dispatch_grid(1921, 1081, size(8, 8, 1), None), Dispatch { x: 241, y: 136, z: 1, timestamps: None });
    assert_eq!(dispatch_grid(7, 1, size(8, 8, 1), None), Dispatch { x: 1, y: 1, z: 1, timestamps: None });
    assert_eq!(dispatch_grid(0, 0, size(8, 8, 1), None), Dispatch { x: 0, y: 0, z: 1, timestamps: None });
    assert_eq!(dispatch_grid(100, 50, size(1, 1, 1), None), Dispatch { x: 100, y: 50, z: 1, timestamps: None });
    assert_eq!(
        dispatch_grid(u32::MAX, u32::MAX, size(2, u32::MAX, 1), None),
        Dispatch { x: 0x8000_0000, y: 1, z: 1, timestamps: None }
    );
}

#[test]
fn dispatch_grid_ignores_depth_of_workgroup() {
    assert_eq!(dispatch_grid(64, 64, size(16, 16, 4), None), dispatch_grid(64, 64, size(16, 16, 0), None));
    assert_eq!(dispatch_grid(64, 64, size(16, 16, 4), None).z, 1);
}

#[test]
fn stage_skips_empty_data() {
    let mut uploads = Vec::new();
    let mut skipped = Vec::new();
    stage(&mut uploads, &mut skipped, vec![1, 2, 3], BufferId::Time);
    stage(&mut uploads, &mut skipped, Vec::new(), BufferId::Custom);
    stage(&mut uploads, &mut skipped, vec![4], BufferId::Mouse);
    assert_eq!(uploads.len(), 2);
    assert_eq!((uploads[0].target, uploads[0].bytes.clone()), (BufferId::Time, vec![1, 2, 3]));
    assert_eq!((uploads[1].target, uploads[1].bytes.clone()), (BufferId::Mouse, vec![4]));
    assert_eq!(skipped, vec![BufferId::Custom]);
}

fn targets(uploads: &[Upload]) -> Vec<BufferId> {
    uploads.iter().map(|upload| upload.target).collect()
}

#[test]
fn stage_uniforms_stages_all_blocks() {
    let mut keys = Keys::new();
    keys.set(3, true);
    let time = Time { frame: 7, elapsed: 2.0f32.to_bits() };
    let mouse = Mouse { x: 1, y: 2, click: true };
    let (uploads, skipped) = stage_uniforms(&vec![1.5f32.to_bits(), 2.0f32.to_bits()], &time, &mouse, &keys);
    assert!(skipped.is_empty());
    assert_eq!(
        targets(&uploads),
        vec![BufferId::Custom, BufferId::Time, BufferId::Mouse, BufferId::Keys, BufferId::Debug]
    );
    assert_eq!(uploads[0].bytes, vec![0, 0, 0xc0, 0x3f, 0, 0, 0, 0x40]);
    assert_eq!(uploads[1].bytes, vec![7, 0, 0, 0, 0, 0, 0, 0x40]);
    assert_eq!(uploads[2].bytes, vec![1, 0, 0, 0, 2, 0, 0, 0, 1, 0, 0, 0]);
    let mut bitmap = vec![0u8; 32];
    bitmap[0] = 8;
    assert_eq!(uploads[3].bytes, bitmap);
    assert_eq!(uploads[4].bytes, vec![0u8; 40]);
}

#[test]
fn stage_uniforms_without_custom_values_skips_custom() {
    let time = Time { frame: 0, elapsed: 0 };
    let mouse = Mouse { x: 0, y: 0, click: false };
    let (uploads, skipped) = stage_uniforms(&Vec::new(), &time, &mouse, &Keys::new());
    assert_eq!(skipped, vec![BufferId::Custom]);
    assert_eq!(targets(&uploads), vec![BufferId::Time, BufferId::Mouse, BufferId::Keys, BufferId::Debug]);
}

#[test]
fn plan_dispatches_follows_passes() {
    let passes = vec![
        Pass { pipeline: 'a', workgroup_size: size(8, 8, 1), pass_f32: false },
        Pass { pipeline: 'b', workgroup_size: size(16, 4, 1), pass_f32: false },
    ];
    assert_eq!(
        plan_dispatches(&passes, 1920, 1080, false),
        vec![
            Dispatch { x: 240, y: 135, z: 1, timestamps: None },
            Dispatch { x: 120, y: 270, z: 1, timestamps: None },
        ]
    );
    assert_eq!(
        plan_dispatches(&passes, 1920, 1080, true),
        vec![
            Dispatch { x: 240, y: 135, z: 1, timestamps: Some(Timestamps { before: 0, after: 1 }) },
            Dispatch { x: 120, y: 270, z: 1, timestamps: Some(Timestamps { before: 2, after: 3 }) },
        ]
    );
    let none: Vec<Pass<char>> = Vec::new();
    assert!(plan_dispatches(&none, 1920, 1080, true).is_empty());
}

#[test]
fn plan_readback_every_hundredth_frame() {
    for frame in [0u32, 100, 200, 4_294_967_200] {
        assert!(plan_readback(frame, 1, false, 4, 4).is_some());
    }
    for frame in [1u32, 50, 99, 101, 199, u32::MAX] {
        assert!(plan_readback(frame, 1, false, 4, 4).is_none());
    }
}

#[test]
fn plan_readback_sizes_buffer() {
    assert_eq!(
        plan_readback(0, 0, false, 1920, 1080),
        Some(Readback { size: 40, counters_size: 40, query_count: None, threads: 2_073_600 })
    );
    assert_eq!(
        plan_readback(100, 3, true, 1920, 1080),
        Some(Readback { size: 88, counters_size: 40, query_count: Some(6), threads: 2_073_600 })
    );
    assert_eq!(
        plan_readback(100, 3, false, u32::MAX, u32::MAX),
        Some(Readback { size: 88, counters_size: 40, query_count: None, threads: 18_446_744_065_119_617_025 })
    );
}
