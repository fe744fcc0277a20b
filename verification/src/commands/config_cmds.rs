//! The configuration commands and the first-launch marker.
use vstd::prelude::*;
use crate::config::schema::{path_join, join_path};
use crate::text::{concat3, opt_text};

verus! {

/// The greeting shown by the panel.
pub fn greet(name: &str) -> (r: String)
    ensures
        r@ == "Hello, "@ + name@ + "! Welcome to ClipBrain."@,
{
    concat3("Hello, ", name, "! Welcome to ClipBrain.")
}

/// The file whose presence marks the first launch as done, under the home directory (the
/// current directory when there is none).
pub fn onboarding_flag_path(home: Option<String>) -> (r: String)
    ensures
        r@ == path_join(path_join(match opt_text(home) { Some(h) => h, None => Seq::empty() }, ".clipbrain"@), ".onboarding_done"@),
{
    let base = match home {
        Some(h) => h,
        None => String::new(),
    };
    let dir = join_path(base.as_str(), ".clipbrain");
    join_path(dir.as_str(), ".onboarding_done")
}

/// The outcome of switching start at login on (`enable`) or off, from the system's answer.
pub fn autostart_result(enable: bool, outcome: Result<(), String>) -> (r: Result<(), String>)
    ensures
        match outcome {
            Ok(()) => r is Ok,
            Err(e) => r matches Err(m) && m@ == (if enable { "启用开机自启动失败: "@ } else { "关闭开机自启动失败: "@ }) + e@,
        },
{
    proof {
        reveal_strlit("");
    }
    match outcome {
        Ok(()) => Ok(()),
        Err(e) => if enable {
            Err(concat3("启用开机自启动失败: ", e.as_str(), ""))
        } else {
            Err(concat3("关闭开机自启动失败: ", e.as_str(), ""))
        },
    }
}

/// The outcome of writing the first-launch marker.
pub fn onboarding_write_result(outcome: Result<(), String>) -> (r: Result<(), String>)
    ensures
        match outcome {
            Ok(()) => r is Ok,
            Err(e) => r matches Err(m) && m@ == "写入标记文件失败: "@ + e@,
        },
{
    proof {
        reveal_strlit("");
    }
    match outcome {
        Ok(()) => Ok(()),
        Err(e) => Err(concat3("写入标记文件失败: ", e.as_str(), "")),
    }
}

} // verus!
