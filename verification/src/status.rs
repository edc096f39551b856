//! What the user is told of the start of the capture.

use vstd::prelude::*;
use vstd::string::StringExecFns;

verus! {

/// The state of a stage of the application, with words for the user.
#[derive(Debug)]
pub struct NativeStageStatus {
    /// `"ready"` or `"error"`.
    pub state: String,
    pub detail: String,
}

/// The character of a decimal digit.
pub open spec fn digit(value: int) -> char {
    ('0' as int + value) as char
}

/// A number in decimal digits.
pub open spec fn decimal(number: nat) -> Seq<char>
    decreases number,
{
    if number < 10 {
        seq![digit(number as int)]
    } else {
        decimal(number / 10).push(digit((number % 10) as int))
    }
}

/// The digit of a number below ten.
fn digit_text(value: usize) -> (text: &'static str)
    requires
        value < 10,
    ensures
        text@ == seq![digit(value as int)],
{
    proof {
        reveal_strlit("0");
        reveal_strlit("1");
        reveal_strlit("2");
        reveal_strlit("3");
        reveal_strlit("4");
        reveal_strlit("5");
        reveal_strlit("6");
        reveal_strlit("7");
        reveal_strlit("8");
        reveal_strlit("9");
    }
    match value {
        0 => "0",
        1 => "1",
        2 => "2",
        3 => "3",
        4 => "4",
        5 => "5",
        6 => "6",
        7 => "7",
        8 => "8",
        _ => "9",
    }
}

/// Writes a number in decimal digits.
fn decimal_text(number: usize) -> (text: String)
    ensures
        text@ == decimal(number as nat),
    decreases number,
{
    if number < 10 {
        digit_text(number).to_string()
    } else {
        let mut text = decimal_text(number / 10);
        text.append(digit_text(number % 10));
        text
    }
}

/// The status when the virtual devices cannot be made.
pub fn uinput_failure(error: &str) -> (status: NativeStageStatus)
    ensures
        status.state@ == "error"@,
        status.detail@ == "无法初始化 uinput 设备: "@ + error@
            + "。确保 /dev/uinput 存在且当前用户有读写权限（通常需要加入 input 组，或配置 udev 规则）。"@,
{
    let mut detail = "无法初始化 uinput 设备: ".to_string();
    detail.append(error);
    detail.append(
        "。确保 /dev/uinput 存在且当前用户有读写权限（通常需要加入 input 组，或配置 udev 规则）。",
    );
    NativeStageStatus { state: "error".to_string(), detail }
}

/// Why the capture cannot start with the mice that were found, given their number or why they
/// could not be looked for; nothing where it can.
pub fn discovery_failure(found: &Result<usize, String>) -> (failure: Option<String>)
    ensures
        match *found {
            Ok(count) => if count == 0 {
                failure matches Some(text) && text@
                    == "没有在 /dev/input 找到可用的鼠标设备。请检查 input 组权限。"@
            } else {
                failure is None
            },
            Err(error) => failure matches Some(text) && text@
                == "枚举 evdev 鼠标设备失败: "@ + error@,
        },
{
    match found {
        Ok(count) => if *count == 0 {
            Some("没有在 /dev/input 找到可用的鼠标设备。请检查 input 组权限。".to_string())
        } else {
            None
        },
        Err(error) => {
            let mut text = "枚举 evdev 鼠标设备失败: ".to_string();
            text.append(error.as_str());
            Some(text)
        },
    }
}

/// Why the capture cannot start with the number of mice that were grabbed; nothing where it can.
pub fn grab_failure(grabbed: usize) -> (failure: Option<String>)
    ensures
        if grabbed == 0 {
            failure matches Some(text) && text@
                == "无法独占（grab）任何鼠标设备。可能缺少 /dev/input 读权限，或其它程序正在占用。"@
        } else {
            failure is None
        },
{
    if grabbed == 0 {
        Some(
            "无法独占（grab）任何鼠标设备。可能缺少 /dev/input 读权限，或其它程序正在占用。".to_string(),
        )
    } else {
        None
    }
}

/// The status once the capture has reported, or has failed to in time.
pub fn capture_status(report: Option<Result<(), String>>, target_count: usize) -> (status:
    NativeStageStatus)
    ensures
        match report {
            Some(Ok(_)) => {
                &&& status.state@ == "ready"@
                &&& status.detail@ == "控制端已就绪，"@ + decimal(target_count as nat)
                    + " 条远端贴边可用于鼠标和键盘切换。"@
            },
            Some(Err(error)) => status.state@ == "error"@ && status.detail@ == error@,
            None => {
                &&& status.state@ == "error"@
                &&& status.detail@ == "Linux input capture did not become ready."@
            },
        },
{
    match report {
        Some(Ok(_)) => {
            let mut detail = "控制端已就绪，".to_string();
            detail.append(decimal_text(target_count).as_str());
            detail.append(" 条远端贴边可用于鼠标和键盘切换。");
            NativeStageStatus { state: "ready".to_string(), detail }
        },
        Some(Err(error)) => NativeStageStatus { state: "error".to_string(), detail: error },
        None => NativeStageStatus {
            state: "error".to_string(),
            detail: "Linux input capture did not become ready.".to_string(),
        },
    }
}

/// The number that decimal digits stand for.
pub open spec fn number_of(digits: Seq<char>) -> int
    decreases digits.len(),
{
    if digits.len() == 0 {
        0
    } else {
        number_of(digits.drop_last()) * 10 + (digits.last() as int - '0' as int)
    }
}

/// A number in decimal digits reads as that number: it consists of digits alone, of which the
/// first is zero only in zero itself.
pub proof fn law_decimal_reads_back(number: nat)
    ensures
        ({
            let digits = decimal(number);
            &&& number_of(digits) == number
            &&& digits.len() > 0
            &&& digits[0] == '0' ==> number == 0 && digits.len() == 1
            &&& forall|i: int| 0 <= i < digits.len() ==> '0' <= #[trigger] digits[i] <= '9'
        }),
    decreases number,
{
    reveal_with_fuel(number_of, 2);
    if number >= 10 {
        law_decimal_reads_back(number / 10);
        assert(decimal(number).drop_last() == decimal(number / 10));
        assert(decimal(number)[0] == decimal(number / 10)[0]);
    } else {
        assert(decimal(number).drop_last().len() == 0);
    }
}

/// Whether a text holds another one.
pub open spec fn holds(text: Seq<char>, part: Seq<char>) -> bool {
    exists|start: int|
        0 <= start <= text.len() - part.len() && #[trigger] text.subrange(
            start,
            start + part.len(),
        ) == part
}

/// The capture fails for want of mice just where none was found or none could be looked for, and
/// in the latter case the user is told why.
pub proof fn law_capture_needs_a_mouse(found: Result<usize, String>, failure: Option<String>)
    requires
        call_ensures(discovery_failure, (&found,), failure),
    ensures
        failure is None <==> (found matches Ok(count) && count > 0),
        found matches Err(error) ==> (failure matches Some(text) && holds(text@, error@)),
{
    if let Err(error) = found {
        let text = failure->0@;
        let start = text.len() - error@.len();
        assert(text.subrange(start, start + error@.len()) == error@);
    }
}

/// The capture fails for want of grabbed mice just where none was grabbed.
pub proof fn law_capture_needs_a_grabbed_mouse(grabbed: usize, failure: Option<String>)
    requires
        call_ensures(grab_failure, (grabbed,), failure),
    ensures
        failure is None <==> grabbed > 0,
{
}

/// Without virtual devices the user is told that the start failed, and why.
pub proof fn law_failure_of_the_devices_is_told(error: &str, status: NativeStageStatus)
    requires
        call_ensures(uinput_failure, (error,), status),
    ensures
        status.state@ == "error"@,
        holds(status.detail@, error@),
{
    let start = "无法初始化 uinput 设备: "@.len() as int;
    assert(status.detail@.subrange(start, start + error@.len()) == error@);
}

/// The user is told that the capture is ready just where it has reported so, and then how many
/// remote edges there are. Otherwise the user is told that it failed, with the reported reason
/// word for word.
pub proof fn law_status_tells_whether_the_capture_runs(
    report: Option<Result<(), String>>,
    target_count: usize,
    status: NativeStageStatus,
)
    requires
        call_ensures(capture_status, (report, target_count), status),
    ensures
        status.state@ == "ready"@ <==> (report matches Some(Ok(_))),
        status.state@ == "error"@ <==> !(report matches Some(Ok(_))),
        report matches Some(Ok(_)) ==> holds(status.detail@, decimal(target_count as nat)),
        report matches Some(Err(error)) ==> status.detail@ == error@,
        status.detail@.len() == 0 ==> (report matches Some(Err(error)) && error@.len() == 0),
{
    reveal_strlit("ready");
    reveal_strlit("error");
    reveal_strlit("Linux input capture did not become ready.");
    assert("ready"@[0] != "error"@[0]);
    let digits = decimal(target_count as nat);
    law_decimal_reads_back(target_count as nat);
    if report matches Some(Ok(_)) {
        let start = "控制端已就绪，"@.len() as int;
        assert(status.detail@.subrange(start, start + digits.len()) == digits);
    }
}

} // verus!
