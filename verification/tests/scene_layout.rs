use wgpu_scene::compare::CompareFunction;
use wgpu_scene::instances::{
    instance_buffer_layout, instance_grid, scene_grid, GridCell, VertexFormat, VertexStepMode,
};

#[test]
fn compare_function_codes() {
    let all = [
        CompareFunction::Undefined,
        CompareFunction::Never,
        CompareFunction::Less,
        CompareFunction::Equal,
        CompareFunction::LessEqual,
        CompareFunction::Greater,
        CompareFunction::NotEqual,
        CompareFunction::GreaterEqual,
        CompareFunction::Always,
    ];
    for (i, c) in all.iter().enumerate() {
        assert_eq!(c.discriminant(), i as u32);
        assert_eq!(CompareFunction::from_discriminant(i as u32), Some(*c));
    }
    assert_eq!(CompareFunction::Less.discriminant(), 2);
    assert_eq!(CompareFunction::from_discriminant(9), None);
    assert_eq!(CompareFunction::from_discriminant(u32::MAX), None);
}

#[test]
fn scene_grid_is_ten_by_ten_row_by_row() {
    let cells = scene_grid();
    assert_eq!(cells.len(), 100);
    assert_eq!(cells[0], GridCell { column: 0, row: 0, at_origin: false });
    assert_eq!(cells[13], GridCell { column: 3, row: 1, at_origin: false });
    assert_eq!(cells[55], GridCell { column: 5, row: 5, at_origin: true });
    assert_eq!(cells.iter().filter(|c| c.at_origin).count(), 1);
    for (i, c) in cells.iter().enumerate() {
        assert_eq!(c.column as usize, i % 10);
        assert_eq!(c.row as usize, i / 10);
    }
}

#[test]
fn odd_and_empty_grids() {
    let cells = instance_grid(3);
    assert_eq!(cells.len(), 9);
    assert!(cells.iter().all(|c| !c.at_origin));
    assert!(instance_grid(0).is_empty());
    let cells = instance_grid(2);
    assert_eq!(cells.iter().position(|c| c.at_origin), Some(3));
}

#[test]
fn instance_layout_covers_one_matrix() {
    let layout = instance_buffer_layout();
    assert_eq!(layout.array_stride, 64);
    assert_eq!(layout.step_mode, VertexStepMode::Instance);
    assert_eq!(layout.attributes.len(), 4);
    let offsets: Vec<u64> = layout.attributes.iter().map(|a| a.offset).collect();
    assert_eq!(offsets, vec![0, 16, 32, 48]);
    let locations: Vec<u32> = layout.attributes.iter().map(|a| a.shader_location).collect();
    assert_eq!(locations, vec![5, 6, 7, 8]);
    assert!(layout.attributes.iter().all(|a| a.format == VertexFormat::Float32x4));
}
