use wgputoy::pipeline::{DeviceError, PipelineManager, Rollback};
use wgputoy::shader::{CompiledShader, EntryPoint, ShaderStage, WorkgroupSize};

fn shader_with(sizes: &[(u32, u32, u32)]) -> CompiledShader {
    CompiledShader {
        wgsl: String::new(),
        pass_f32: false,
        entry_points: sizes
            .iter()
            .enumerate()
            .map(|(i, &(x, y, z))| EntryPoint {
                name: format!("pass{}", i),
                stage: ShaderStage::Compute,
                workgroup_size: WorkgroupSize { x, y, z },
            })
            .collect(),
    }
}

fn current(manager: &PipelineManager<&'static str>) -> Vec<(&'static str, WorkgroupSize)> {
    manager.current_passes().iter().map(|pass| (pass.pipeline, pass.workgroup_size)).collect()
}

#[test]
fn new_manager_has_no_passes() {
    let manager: PipelineManager<&'static str> = PipelineManager::new();
    assert!(manager.current_passes().is_empty());
    assert!(!manager.has_previous());
}

#[test]
fn load_pairs_pipelines_with_workgroup_sizes() {
    let mut manager = PipelineManager::new();
    let shader = shader_with(&[(8, 8, 1), (16, 4, 2)]);
    assert_eq!(manager.load(&shader, vec!["a", "b"], false), Ok(()));
    assert_eq!(
        current(&manager),
        vec![("a", WorkgroupSize { x: 8, y: 8, z: 1 }), ("b", WorkgroupSize { x: 16, y: 4, z: 2 })]
    );
    assert!(manager.has_previous());
}

#[test]
fn load_refuses_wrong_number_of_pipelines() {
    let mut manager = PipelineManager::new();
    assert_eq!(manager.load(&shader_with(&[(8, 8, 1)]), vec!["a"], false), Ok(()));
    let shader = shader_with(&[(8, 8, 1), (8, 8, 1)]);
    assert_eq!(manager.load(&shader, vec!["x"], false), Err(DeviceError::PipelineCountMismatch));
    assert_eq!(manager.load(&shader, vec!["x", "y", "z"], false), Err(DeviceError::PipelineCountMismatch));
    assert_eq!(manager.load(&shader, Vec::new(), false), Err(DeviceError::PipelineCountMismatch));
    assert_eq!(current(&manager), vec![("a", WorkgroupSize { x: 8, y: 8, z: 1 })]);
}

#[test]
fn load_refuses_empty_workgroup() {
    let mut manager = PipelineManager::new();
    assert_eq!(manager.load(&shader_with(&[(8, 8, 1)]), vec!["a"], false), Ok(()));
    assert_eq!(manager.load(&shader_with(&[(4, 4, 1), (0, 4, 1)]), vec!["x", "y"], false), Err(DeviceError::EmptyWorkgroup));
    assert_eq!(manager.load(&shader_with(&[(4, 0, 1)]), vec!["x"], false), Err(DeviceError::EmptyWorkgroup));
    assert_eq!(current(&manager), vec![("a", WorkgroupSize { x: 8, y: 8, z: 1 })]);
    assert_eq!(manager.load(&shader_with(&[(4, 4, 0)]), vec!["z"], false), Ok(()));
}

#[test]
fn load_of_no_entry_points_gives_empty_set() {
    let mut manager: PipelineManager<&'static str> = PipelineManager::new();
    assert_eq!(manager.load(&shader_with(&[]), Vec::new(), false), Ok(()));
    assert!(manager.current_passes().is_empty());
    assert!(manager.has_previous());
}

#[test]
fn rollback_restores_previous_set() {
    let mut manager = PipelineManager::new();
    assert_eq!(manager.load(&shader_with(&[(8, 8, 1), (2, 2, 1)]), vec!["a", "b"], false), Ok(()));
    let before = current(&manager);
    assert_eq!(manager.load(&shader_with(&[(1, 1, 1)]), vec!["bad"], false), Ok(()));
    assert_eq!(manager.rollback(), Rollback::Restored);
    assert_eq!(current(&manager), before);
    assert!(!manager.has_previous());
}

#[test]
fn rollback_after_first_load_leaves_no_pass() {
    let mut manager = PipelineManager::new();
    assert_eq!(manager.load(&shader_with(&[(8, 8, 1)]), vec!["bad"], false), Ok(()));
    assert_eq!(manager.rollback(), Rollback::Restored);
    assert!(manager.current_passes().is_empty());
}

#[test]
fn rollback_without_previous_leaves_no_pass() {
    let mut manager: PipelineManager<&'static str> = PipelineManager::new();
    assert_eq!(manager.rollback(), Rollback::NothingToRestore);
    assert!(manager.current_passes().is_empty());
    assert_eq!(manager.load(&shader_with(&[(8, 8, 1)]), vec!["a"], false), Ok(()));
    assert_eq!(manager.load(&shader_with(&[(8, 8, 1)]), vec!["b"], false), Ok(()));
    assert_eq!(manager.rollback(), Rollback::Restored);
    assert_eq!(manager.rollback(), Rollback::NothingToRestore);
    assert!(manager.current_passes().is_empty());
    assert!(!manager.has_previous());
}

#[test]
fn reload_keeps_pass_count() {
    let mut manager = PipelineManager::new();
    let shader = shader_with(&[(8, 8, 1), (2, 2, 1)]);
    assert_eq!(manager.load(&shader, vec!["a", "b"], false), Ok(()));
    let once = manager.current_passes().len();
    assert_eq!(manager.load(&shader, vec!["c", "d"], false), Ok(()));
    assert_eq!(manager.current_passes().len(), once);
    assert_eq!(once, 2);
}

#[test]
fn manager_refuses_shader_of_other_precision() {
    let mut manager = PipelineManager::new();
    assert_eq!(manager.load(&shader_with(&[(8, 8, 1)]), vec!["a"], false), Ok(()));
    assert_eq!(manager.load(&shader_with(&[(8, 8, 1)]), vec!["b"], true), Err(DeviceError::PrecisionMismatch));
    assert_eq!(manager.load(&shader_with(&[(8, 8, 1)]), Vec::new(), true), Err(DeviceError::PrecisionMismatch));
    assert_eq!(current(&manager), vec![("a", WorkgroupSize { x: 8, y: 8, z: 1 })]);
    assert!(manager.current_passes().iter().all(|pass| !pass.pass_f32));
    let mut full = shader_with(&[(4, 4, 1)]);
    full.pass_f32 = true;
    assert_eq!(manager.load(&full, vec!["c"], false), Err(DeviceError::PrecisionMismatch));
    let mut other = PipelineManager::new();
    assert_eq!(other.load(&full, vec!["c"], true), Ok(()));
    assert!(other.current_passes()[0].pass_f32);
}

#[test]
fn clear_drops_both_sets() {
    let mut manager = PipelineManager::new();
    assert_eq!(manager.load(&shader_with(&[(8, 8, 1)]), vec!["a"], false), Ok(()));
    assert_eq!(manager.load(&shader_with(&[(8, 8, 1)]), vec!["b"], false), Ok(()));
    manager.clear();
    assert!(manager.current_passes().is_empty());
    assert!(!manager.has_previous());
    assert_eq!(manager.rollback(), Rollback::NothingToRestore);
}
