use hermes::cccl::host_thrust::{hermes_copy, hermes_reduce};
use hermes::cccl::CCCL_VERSION;
use hermes::cuda::{
    hermes_cuda_cccl_version, hermes_cuda_gsp_online, hermes_cuda_host_fill_u8,
    hermes_cuda_host_sort_i32, hermes_cuda_host_thrust_available, hermes_cuda_reset,
    hermes_cuda_set_gsp_online, CudaState, CUDA_ERROR_HERMES_GSP_OFFLINE,
    CUDA_ERROR_INVALID_CONTEXT, CUDA_ERROR_INVALID_VALUE, CUDA_ERROR_NOT_INITIALIZED, CUDA_SUCCESS,
};

#[test]
fn offline_rejects_init_and_device_count() {
    let mut st = CudaState::new();
    hermes_cuda_reset(&mut st);
    assert!(!hermes_cuda_gsp_online(&st));
    assert_eq!(st.cu_init(), CUDA_ERROR_HERMES_GSP_OFFLINE);
    assert_eq!(st.cuda_get_device_count(), Err(CUDA_ERROR_HERMES_GSP_OFFLINE));
}

#[test]
fn online_alloc_copy_roundtrip() {
    let mut st = CudaState::new();
    hermes_cuda_reset(&mut st);
    hermes_cuda_set_gsp_online(&mut st, true);
    assert_eq!(st.cu_init(), CUDA_SUCCESS);
    assert_eq!(st.cu_device_get_count(), Ok(1));
    let ctx = st.cu_ctx_create(0).unwrap();
    let dptr = st.cu_mem_alloc(16).unwrap();
    let src = [1u8, 2, 3, 4, 5, 6, 7, 8, 9, 10, 11, 12, 13, 14, 15, 16];
    assert_eq!(st.cu_memcpy_htod(dptr, &src), CUDA_SUCCESS);
    let dst = st.cu_memcpy_dtoh(dptr, 16).unwrap();
    assert_eq!(&src[..], &dst[..]);
    assert_eq!(st.cu_mem_free(dptr), CUDA_SUCCESS);
    assert_eq!(st.cu_ctx_destroy(ctx), CUDA_SUCCESS);
    hermes_cuda_reset(&mut st);
}

#[test]
fn host_thrust_sort_via_cuda_bridge() {
    let mut v = [3, 1, 2];
    hermes_cuda_host_sort_i32(&mut v);
    assert_eq!(v, [1, 2, 3]);
    assert_eq!(hermes_cuda_cccl_version(), CCCL_VERSION);
    let a = [1u32, 2, 3, 4];
    let mut b = [0u32; 4];
    assert_eq!(hermes_copy(&a, &mut b), 4);
    assert_eq!(hermes_reduce(&b, 0, |x, y| x + y), 10);
}

#[test]
fn cuda_calls_need_init_and_context() {
    let mut st = CudaState::new();
    assert_eq!(st.cu_device_get_count(), Err(CUDA_ERROR_NOT_INITIALIZED));
    hermes_cuda_set_gsp_online(&mut st, true);
    assert_eq!(st.cu_mem_alloc(0), Err(CUDA_ERROR_INVALID_VALUE));
    assert_eq!(st.cu_mem_alloc(8), Err(CUDA_ERROR_INVALID_CONTEXT));
}

#[test]
fn going_offline_refuses_copies() {
    let mut st = CudaState::new();
    hermes_cuda_set_gsp_online(&mut st, true);
    assert_eq!(st.cu_init(), CUDA_SUCCESS);
    let _ctx = st.cu_ctx_create(0).unwrap();
    let dptr = st.cu_mem_alloc(4).unwrap();
    hermes_cuda_set_gsp_online(&mut st, false);
    assert_eq!(st.cu_memcpy_htod(dptr, &[1, 2, 3, 4]), CUDA_ERROR_HERMES_GSP_OFFLINE);
    assert_eq!(st.cu_memcpy_dtoh(dptr, 4), Err(CUDA_ERROR_HERMES_GSP_OFFLINE));
}

#[test]
fn host_helpers_sort_and_fill() {
    let mut v = [5, -1, 5, 0];
    hermes_cuda_host_sort_i32(&mut v);
    assert_eq!(v, [-1, 0, 5, 5]);
    let mut bytes = [0u8; 3];
    hermes_cuda_host_fill_u8(&mut bytes, 9);
    assert_eq!(bytes, [9, 9, 9]);
    assert!(hermes_cuda_host_thrust_available());
}
