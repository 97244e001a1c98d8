use hypercube::render_mode::RenderMode;

#[test]
fn labels_are_the_names_of_the_selection_list() {
    assert_eq!(RenderMode::Standard.label(), "Standard");
    assert_eq!(RenderMode::Normals.label(), "Normal Map");
    assert_eq!(RenderMode::Depth.label(), "Depth Map");
}

#[test]
fn all_lists_the_three_modes_in_order() {
    assert_eq!(
        RenderMode::all(),
        [RenderMode::Standard, RenderMode::Normals, RenderMode::Depth]
    );
}
