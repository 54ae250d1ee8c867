use hermes::mesa::icd::{default_icd_json, icd_search_paths, vulkan_icd_json, ICD_LIBRARY_BASENAME};
use hermes::mesa::present::PresentError;
use hermes::mesa::{
    hermes_gl_create_context, hermes_mesa_gsp_online, hermes_mesa_reset,
    hermes_mesa_set_gsp_online, hermes_present_solid_frame, hermes_vulkan_api_version,
    hermes_vulkan_icd_library_path, MesaState, GL_INVALID_OPERATION, GL_NO_ERROR,
    VK_ERROR_INCOMPATIBLE_DRIVER,
};

#[test]
fn json_contains_library_and_version() {
    let j = default_icd_json();
    assert!(j.contains(ICD_LIBRARY_BASENAME));
    assert!(j.contains("1.3.0"));
    assert!(j.contains("file_format_version"));
}

#[test]
fn icd_document_is_exact() {
    let j = vulkan_icd_json("/lib/x.so", "1.2.0");
    assert_eq!(
        j,
        "{\n    \"file_format_version\": \"1.0.0\",\n    \"ICD\": {\n        \"library_path\": \"/lib/x.so\",\n        \"api_version\": \"1.2.0\"\n    }\n}\n"
    );
    assert_eq!(icd_search_paths()[0], "/usr/share/vulkan/icd.d");
    assert_eq!(icd_search_paths().len(), 3);
    assert_eq!(hermes_vulkan_icd_library_path(), ICD_LIBRARY_BASENAME);
    assert_eq!(hermes_vulkan_api_version(), 0x0040_3000);
}

#[test]
fn vulkan_instance_requires_gsp() {
    let mut st = MesaState::new();
    hermes_mesa_reset(&mut st);
    assert_eq!(st.create_vk_instance(), Err(VK_ERROR_INCOMPATIBLE_DRIVER));
    hermes_mesa_set_gsp_online(&mut st, true);
    let inst = st.create_vk_instance().unwrap();
    assert_ne!(inst, 0);
    assert_eq!(st.physical_device_count(), 1);
    st.destroy_vk_instance(inst);
    hermes_mesa_reset(&mut st);
    assert_eq!(st.physical_device_count(), 0);
}

#[test]
fn present_through_drm_atomic() {
    let mut st = MesaState::new();
    assert!(hermes_present_solid_frame(&mut st).is_err());
    hermes_mesa_set_gsp_online(&mut st, true);
    let seq = hermes_present_solid_frame(&mut st).unwrap();
    assert_eq!(seq, 1);
    hermes_mesa_reset(&mut st);
}

#[test]
fn offline_present_is_refused_as_offline() {
    let mut st = MesaState::new();
    assert_eq!(hermes_present_solid_frame(&mut st), Err(PresentError::Offline));
    hermes_mesa_set_gsp_online(&mut st, true);
    assert_eq!(hermes_present_solid_frame(&mut st), Ok(1));
    assert_eq!(hermes_present_solid_frame(&mut st), Ok(1));
    hermes_mesa_set_gsp_online(&mut st, false);
    assert_eq!(hermes_present_solid_frame(&mut st), Err(PresentError::Offline));
}

#[test]
fn gl_error_reflects_online() {
    let mut st = MesaState::new();
    assert_ne!(st.gl_error(), 0);
    assert_eq!(st.gl_error(), GL_INVALID_OPERATION);
    hermes_mesa_set_gsp_online(&mut st, true);
    assert!(hermes_mesa_gsp_online(&st));
    assert_eq!(st.gl_error(), GL_NO_ERROR);
    assert!(hermes_gl_create_context(&mut st).is_some());
    hermes_mesa_reset(&mut st);
    assert!(hermes_gl_create_context(&mut st).is_none());
}

#[test]
fn instance_handles_count_up_from_one() {
    let mut st = MesaState::new();
    hermes_mesa_set_gsp_online(&mut st, true);
    assert_eq!(st.create_vk_instance(), Ok(1));
    assert_eq!(st.create_vk_instance(), Ok(2));
    assert_eq!(hermes_gl_create_context(&mut st), Some(1));
    assert_eq!(hermes_gl_create_context(&mut st), Some(2));
}
