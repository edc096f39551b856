//! The start of the process and of the capture.

use mkvm::launch::{first_step, next_step, LaunchStep};
use mkvm::status::{capture_status, discovery_failure, grab_failure, uinput_failure};

fn launch(handled: bool, acquired: bool) -> Vec<LaunchStep> {
    let mut steps = vec![first_step()];
    while *steps.last().unwrap() != LaunchStep::Exit {
        let step = *steps.last().unwrap();
        let answer = match step {
            LaunchStep::HandleControlArgs => handled,
            LaunchStep::AcquireInstance => acquired,
            _ => true,
        };
        steps.push(next_step(step, answer));
    }
    steps
}

#[test]
fn control_arguments_end_the_process() {
    assert_eq!(launch(true, true), vec![LaunchStep::HandleControlArgs, LaunchStep::Exit]);
}

#[test]
fn second_instance_shows_the_first() {
    assert_eq!(
        launch(false, false),
        vec![
            LaunchStep::HandleControlArgs,
            LaunchStep::AcquireInstance,
            LaunchStep::ActivateExisting,
            LaunchStep::Exit,
        ],
    );
}

#[test]
fn only_instance_runs() {
    assert_eq!(
        launch(false, true),
        vec![
            LaunchStep::HandleControlArgs,
            LaunchStep::AcquireInstance,
            LaunchStep::Run,
            LaunchStep::Exit,
        ],
    );
}

#[test]
fn missing_uinput_is_explained() {
    let status = uinput_failure("uinput mouse open: denied");
    assert_eq!(status.state, "error");
    assert_eq!(
        status.detail,
        "无法初始化 uinput 设备: uinput mouse open: denied。确保 /dev/uinput 存在且当前用户有读写权限（通常需要加入 input 组，或配置 udev 规则）。",
    );
}

#[test]
fn discovery_must_find_a_mouse() {
    assert_eq!(
        discovery_failure(&Ok(0)).as_deref(),
        Some("没有在 /dev/input 找到可用的鼠标设备。请检查 input 组权限。"),
    );
    assert_eq!(
        discovery_failure(&Err("denied".to_string())).as_deref(),
        Some("枚举 evdev 鼠标设备失败: denied"),
    );
    assert_eq!(discovery_failure(&Ok(1)), None);
    assert_eq!(discovery_failure(&Ok(7)), None);
}

#[test]
fn a_mouse_must_be_grabbed() {
    assert_eq!(
        grab_failure(0).as_deref(),
        Some("无法独占（grab）任何鼠标设备。可能缺少 /dev/input 读权限，或其它程序正在占用。"),
    );
    assert_eq!(grab_failure(1), None);
}

#[test]
fn status_follows_the_report() {
    let ready = capture_status(Some(Ok(())), 1203);
    assert_eq!(ready.state, "ready");
    assert_eq!(ready.detail, "控制端已就绪，1203 条远端贴边可用于鼠标和键盘切换。");
    let none = capture_status(Some(Ok(())), 0);
    assert_eq!(none.detail, "控制端已就绪，0 条远端贴边可用于鼠标和键盘切换。");
    let many = capture_status(Some(Ok(())), usize::MAX);
    assert_eq!(
        many.detail,
        format!("控制端已就绪，{} 条远端贴边可用于鼠标和键盘切换。", usize::MAX),
    );
    let failed = capture_status(Some(Err("no mouse".to_string())), 2);
    assert_eq!((failed.state.as_str(), failed.detail.as_str()), ("error", "no mouse"));
    let late = capture_status(None, 2);
    assert_eq!(late.state, "error");
    assert_eq!(late.detail, "Linux input capture did not become ready.");
}
