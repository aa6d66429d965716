use liltcp::config::{
    ETH_PRIORITY, IP_ADDR, LOCAL_ENDPOINT, MAC, NVIC_BASEPRI, PREFIX_LEN, REMOTE_ADDR,
    REMOTE_PORT,
};

#[test]
fn configuration_is_fixed() {
    assert_eq!(MAC, [0x12, 0x00, 0x00, 0x00, 0x00, 0x00]);
    assert_eq!(IP_ADDR, [10, 106, 0, 251]);
    assert_eq!(PREFIX_LEN, 24);
    assert_eq!(REMOTE_ADDR, [10, 106, 0, 198]);
    assert_eq!(REMOTE_PORT, 8001);
    assert_eq!(LOCAL_ENDPOINT, 55128);
}

#[test]
fn ethernet_interrupt_preempts_the_tasks() {
    assert_eq!(NVIC_BASEPRI, 0x80);
    assert_eq!(ETH_PRIORITY, NVIC_BASEPRI - 1);
}
