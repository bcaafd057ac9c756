//! Facts about the translation table, from which `tr` is idempotent.

use vstd::prelude::*;

use crate::i18n::{lookup, translated, TRANSLATIONS, TRANSLATION_COUNT};

verus! {

/// A CJK unified ideograph.
pub open spec fn is_cjk(c: char) -> bool {
    '\u{4e00}' <= c && c <= '\u{9fff}'
}

/// Some character of `s` is a CJK unified ideograph.
pub open spec fn has_cjk(s: Seq<char>) -> bool {
    exists|i: int| 0 <= i < s.len() && is_cjk(#[trigger] s[i])
}

/// A table entry whose English key holds no CJK ideograph, and whose text is
/// either the key itself or holds one.
pub open spec fn entry_shape(entry: (&'static str, &'static str)) -> bool {
    &&& !has_cjk(entry.0@)
    &&& (entry.1@ == entry.0@ || has_cjk(entry.1@))
}

proof fn lemma_entries_0_to_25()
    ensures
        forall|j: int| 0 <= j < 25 ==> entry_shape(#[trigger] TRANSLATIONS@[j]),
{
    reveal_strlit("(empty)");
    assert(entry_shape(TRANSLATIONS@[0]));
    reveal_strlit("(no priority actions)");
    reveal_strlit("(无优先动作)");
    assert(entry_shape(TRANSLATIONS@[1])) by {
        assert(is_cjk("(无优先动作)"@[1]));
    }
    reveal_strlit("⏱︎  - Wait");
    reveal_strlit("⏱︎  - 等待");
    assert(entry_shape(TRANSLATIONS@[2])) by {
        assert(is_cjk("⏱︎  - 等待"@[6]));
    }
    reveal_strlit("⁺ - Buffered wait after");
    reveal_strlit("⁺ - 缓冲后等待");
    assert(entry_shape(TRANSLATIONS@[3])) by {
        assert(is_cjk("⁺ - 缓冲后等待"@[4]));
    }
    reveal_strlit("⟳ - Repeat");
    reveal_strlit("⟳ - 重复");
    assert(entry_shape(TRANSLATIONS@[4])) by {
        assert(is_cjk("⟳ - 重复"@[4]));
    }
    reveal_strlit("▶");
    assert(entry_shape(TRANSLATIONS@[5]));
    reveal_strlit("⇈ - Queue to front");
    reveal_strlit("⇈ - 排到最前");
    assert(entry_shape(TRANSLATIONS@[6])) by {
        assert(is_cjk("⇈ - 排到最前"@[4]));
    }
    reveal_strlit("→ - Right direction");
    reveal_strlit("→ - 右方向");
    assert(entry_shape(TRANSLATIONS@[7])) by {
        assert(is_cjk("→ - 右方向"@[4]));
    }
    reveal_strlit("← - Left direction");
    reveal_strlit("← - 左方向");
    assert(entry_shape(TRANSLATIONS@[8])) by {
        assert(is_cjk("← - 左方向"@[4]));
    }
    reveal_strlit("⇆ - Any direction");
    reveal_strlit("⇆ - 任意方向");
    assert(entry_shape(TRANSLATIONS@[9])) by {
        assert(is_cjk("⇆ - 任意方向"@[4]));
    }
    reveal_strlit("① Queues");
    reveal_strlit("① 队列");
    assert(entry_shape(TRANSLATIONS@[10])) by {
        assert(is_cjk("① 队列"@[2]));
    }
    reveal_strlit("② Conditions & Cooldown");
    reveal_strlit("② 条件与冷却");
    assert(entry_shape(TRANSLATIONS@[11])) by {
        assert(is_cjk("② 条件与冷却"@[2]));
    }
    reveal_strlit("2x EXP Coupon");
    assert(entry_shape(TRANSLATIONS@[12]));
    reveal_strlit("③ Timeline");
    reveal_strlit("③ 时间线");
    assert(entry_shape(TRANSLATIONS@[13])) by {
        assert(is_cjk("③ 时间线"@[2]));
    }
    reveal_strlit("3x EXP Coupon");
    assert(entry_shape(TRANSLATIONS@[14]));
    reveal_strlit("④ Player State");
    reveal_strlit("④ 玩家状态");
    assert(entry_shape(TRANSLATIONS@[15])) by {
        assert(is_cjk("④ 玩家状态"@[2]));
    }
    reveal_strlit("4x EXP Coupon");
    assert(entry_shape(TRANSLATIONS@[16]));
    reveal_strlit("50% Bonus EXP Coupon");
    assert(entry_shape(TRANSLATIONS@[17]));
    reveal_strlit("A ~ B - Random range between A and B");
    reveal_strlit("A ~ B - A 与 B 之间的随机范围");
    assert(entry_shape(TRANSLATIONS@[18])) by {
        assert(is_cjk("A ~ B - A 与 B 之间的随机范围"@[10]));
    }
    reveal_strlit("A ⤓ - Key A is held down");
    reveal_strlit("A ⤓ - 按键 A 被按住");
    assert(entry_shape(TRANSLATIONS@[19])) by {
        assert(is_cjk("A ⤓ - 按键 A 被按住"@[6]));
    }
    reveal_strlit("A ↝ B - Use A key then B key");
    reveal_strlit("A ↝ B - 先使用 A 键再使用 B 键");
    assert(entry_shape(TRANSLATIONS@[20])) by {
        assert(is_cjk("A ↝ B - 先使用 A 键再使用 B 键"@[8]));
    }
    reveal_strlit("A ↜ B - Use B key then A key");
    reveal_strlit("A ↜ B - 先使用 B 键再使用 A 键");
    assert(entry_shape(TRANSLATIONS@[21])) by {
        assert(is_cjk("A ↜ B - 先使用 B 键再使用 A 键"@[8]));
    }
    reveal_strlit("A ↭ B - Use A and B keys at the same time");
    reveal_strlit("A ↭ B - 同时使用 A 和 B 键");
    assert(entry_shape(TRANSLATIONS@[22])) by {
        assert(is_cjk("A ↭ B - 同时使用 A 和 B 键"@[8]));
    }
    reveal_strlit("A ↷ B - Use A key then B key while A is held down");
    reveal_strlit("A ↷ B - 在按住 A 键的同时先使用 A 键再使用 B 键");
    assert(entry_shape(TRANSLATIONS@[23])) by {
        assert(is_cjk("A ↷ B - 在按住 A 键的同时先使用 A 键再使用 B 键"@[8]));
    }
    reveal_strlit("Action legends");
    reveal_strlit("动作图例");
    assert(entry_shape(TRANSLATIONS@[24])) by {
        assert(is_cjk("动作图例"@[0]));
    }
    assert forall|j: int| 0 <= j < 25 implies entry_shape(#[trigger] TRANSLATIONS@[j]) by {
        if j == 0 {}
        if j == 1 {}
        if j == 2 {}
        if j == 3 {}
        if j == 4 {}
        if j == 5 {}
        if j == 6 {}
        if j == 7 {}
        if j == 8 {}
        if j == 9 {}
        if j == 10 {}
        if j == 11 {}
        if j == 12 {}
        if j == 13 {}
        if j == 14 {}
        if j == 15 {}
        if j == 16 {}
        if j == 17 {}
        if j == 18 {}
        if j == 19 {}
        if j == 20 {}
        if j == 21 {}
        if j == 22 {}
        if j == 23 {}
        if j == 24 {}
    }
}

proof fn lemma_entries_25_to_50()
    ensures
        forall|j: int| 25 <= j < 50 ==> entry_shape(#[trigger] TRANSLATIONS@[j]),
{
    reveal_strlit("Actions");
    reveal_strlit("动作");
    assert(entry_shape(TRANSLATIONS@[25])) by {
        assert(is_cjk("动作"@[0]));
    }
    reveal_strlit("Add");
    reveal_strlit("添加");
    assert(entry_shape(TRANSLATIONS@[26])) by {
        assert(is_cjk("添加"@[0]));
    }
    reveal_strlit("Add a new {name} action");
    reveal_strlit("添加新 {name} 动作");
    assert(entry_shape(TRANSLATIONS@[27])) by {
        assert(is_cjk("添加新 {name} 动作"@[0]));
    }
    reveal_strlit("Add a new fixed action");
    reveal_strlit("添加新固定动作");
    assert(entry_shape(TRANSLATIONS@[28])) by {
        assert(is_cjk("添加新固定动作"@[0]));
    }
    reveal_strlit("Add action");
    reveal_strlit("添加动作");
    assert(entry_shape(TRANSLATIONS@[29])) by {
        assert(is_cjk("添加动作"@[0]));
    }
    reveal_strlit("Add move action");
    reveal_strlit("添加移动动作");
    assert(entry_shape(TRANSLATIONS@[30])) by {
        assert(is_cjk("添加移动动作"@[0]));
    }
    reveal_strlit("Add platform");
    reveal_strlit("添加平台");
    assert(entry_shape(TRANSLATIONS@[31])) by {
        assert(is_cjk("添加平台"@[0]));
    }
    reveal_strlit("Adjust");
    reveal_strlit("调整");
    assert(entry_shape(TRANSLATIONS@[32])) by {
        assert(is_cjk("调整"@[0]));
    }
    reveal_strlit("After the last key use, instead of waiting inplace, the bot is allowed to execute the next action partially. This can be useful for movable skill with casting animation.");
    reveal_strlit("在最后一次按键使用后，bot 不再原地等待，而是允许部分执行下一个动作。这对带有施法动画的可移动技能有用。");
    assert(entry_shape(TRANSLATIONS@[33])) by {
        assert(is_cjk("在最后一次按键使用后，bot 不再原地等待，而是允许部分执行下一个动作。这对带有施法动画的可移动技能有用。"@[0]));
    }
    reveal_strlit("All popups.");
    reveal_strlit("所有弹窗。");
    assert(entry_shape(TRANSLATIONS@[34])) by {
        assert(is_cjk("所有弹窗。"@[0]));
    }
    reveal_strlit("Amount");
    reveal_strlit("数量");
    assert(entry_shape(TRANSLATIONS@[35])) by {
        assert(is_cjk("数量"@[0]));
    }
    reveal_strlit("Any");
    reveal_strlit("任意");
    assert(entry_shape(TRANSLATIONS@[36])) by {
        assert(is_cjk("任意"@[0]));
    }
    reveal_strlit("Applicable only for mage class when teleport range increase buff is turned on.");
    reveal_strlit("仅当法师职业且开启传送距离增加 buff 时适用。");
    assert(entry_shape(TRANSLATIONS@[37])) by {
        assert(is_cjk("仅当法师职业且开启传送距离增加 buff 时适用。"@[0]));
    }
    reveal_strlit("Applicable only for non-mage class and when non-up-arrow up jump key is set.");
    reveal_strlit("仅当非法师职业且设置了非上箭头的二段跳按键时适用。");
    assert(entry_shape(TRANSLATIONS@[38])) by {
        assert(is_cjk("仅当非法师职业且设置了非上箭头的二段跳按键时适用。"@[0]));
    }
    reveal_strlit("Applicable only if grapple key is set.");
    reveal_strlit("仅当设置了抓钩按键时适用。");
    assert(entry_shape(TRANSLATIONS@[39])) by {
        assert(is_cjk("仅当设置了抓钩按键时适用。"@[0]));
    }
    reveal_strlit("Applicable only to mage class or when non-up-arrow up jump key is set.");
    reveal_strlit("仅当法师职业或设置了非上箭头的二段跳按键时适用。");
    assert(entry_shape(TRANSLATIONS@[40])) by {
        assert(is_cjk("仅当法师职业或设置了非上箭头的二段跳按键时适用。"@[0]));
    }
    reveal_strlit("Applicable only to mage class.");
    reveal_strlit("仅适用于法师职业。");
    assert(entry_shape(TRANSLATIONS@[41])) by {
        assert(is_cjk("仅适用于法师职业。"@[0]));
    }
    reveal_strlit("Aurelia's Elixir");
    assert(entry_shape(TRANSLATIONS@[42]));
    reveal_strlit("Auto mobbing uses key when pathing");
    reveal_strlit("自动刷怪在路径移动时使用按键");
    assert(entry_shape(TRANSLATIONS@[43])) by {
        assert(is_cjk("自动刷怪在路径移动时使用按键"@[0]));
    }
    reveal_strlit("Auto-mobbing pathing");
    reveal_strlit("自动刷怪路径");
    assert(entry_shape(TRANSLATIONS@[44])) by {
        assert(is_cjk("自动刷怪路径"@[0]));
    }
    reveal_strlit("Buffs");
    assert(entry_shape(TRANSLATIONS@[45]));
    reveal_strlit("Can swap epic familiars");
    assert(entry_shape(TRANSLATIONS@[46]));
    reveal_strlit("Can swap rare familiars");
    assert(entry_shape(TRANSLATIONS@[47]));
    reveal_strlit("Cancel");
    reveal_strlit("取消");
    assert(entry_shape(TRANSLATIONS@[48])) by {
        assert(is_cjk("取消"@[0]));
    }
    reveal_strlit("Cancel (new)");
    reveal_strlit("取消 (新)");
    assert(entry_shape(TRANSLATIONS@[49])) by {
        assert(is_cjk("取消 (新)"@[0]));
    }
    assert forall|j: int| 25 <= j < 50 implies entry_shape(#[trigger] TRANSLATIONS@[j]) by {
        if j == 25 {}
        if j == 26 {}
        if j == 27 {}
        if j == 28 {}
        if j == 29 {}
        if j == 30 {}
        if j == 31 {}
        if j == 32 {}
        if j == 33 {}
        if j == 34 {}
        if j == 35 {}
        if j == 36 {}
        if j == 37 {}
        if j == 38 {}
        if j == 39 {}
        if j == 40 {}
        if j == 41 {}
        if j == 42 {}
        if j == 43 {}
        if j == 44 {}
        if j == 45 {}
        if j == 46 {}
        if j == 47 {}
        if j == 48 {}
        if j == 49 {}
    }
}

proof fn lemma_entries_50_to_75()
    ensures
        forall|j: int| 50 <= j < 75 ==> entry_shape(#[trigger] TRANSLATIONS@[j]),
{
    reveal_strlit("Cancel (old)");
    reveal_strlit("取消 (旧)");
    assert(entry_shape(TRANSLATIONS@[50])) by {
        assert(is_cjk("取消 (旧)"@[0]));
    }
    reveal_strlit("Capture");
    reveal_strlit("捕获");
    assert(entry_shape(TRANSLATIONS@[51])) by {
        assert(is_cjk("捕获"@[0]));
    }
    reveal_strlit("Capture color");
    reveal_strlit("捕获颜色");
    assert(entry_shape(TRANSLATIONS@[52])) by {
        assert(is_cjk("捕获颜色"@[0]));
    }
    reveal_strlit("Capture grayscale");
    reveal_strlit("捕获灰度");
    assert(entry_shape(TRANSLATIONS@[53])) by {
        assert(is_cjk("捕获灰度"@[0]));
    }
    reveal_strlit("Cash shop");
    reveal_strlit("现金商店");
    assert(entry_shape(TRANSLATIONS@[54])) by {
        assert(is_cjk("现金商店"@[0]));
    }
    reveal_strlit("Cash shop is used to reset spin rune to a normal rune. This only happens if solving rune fails 8 times consecutively.");
    reveal_strlit("现金商店用于将旋转符文重置为普通符文。仅当解符文连续失败 8 次时发生。");
    assert(entry_shape(TRANSLATIONS@[55])) by {
        assert(is_cjk("现金商店用于将旋转符文重置为普通符文。仅当解符文连续失败 8 次时发生。"@[0]));
    }
    reveal_strlit("Cash shop text.");
    reveal_strlit("现金商店文本。");
    assert(entry_shape(TRANSLATIONS@[56])) by {
        assert(is_cjk("现金商店文本。"@[0]));
    }
    reveal_strlit("Change channel");
    reveal_strlit("切换频道");
    assert(entry_shape(TRANSLATIONS@[57])) by {
        assert(is_cjk("切换频道"@[0]));
    }
    reveal_strlit("Change channel text.");
    reveal_strlit("切换频道文本。");
    assert(entry_shape(TRANSLATIONS@[58])) by {
        assert(is_cjk("切换频道文本。"@[0]));
    }
    reveal_strlit("Click to set");
    reveal_strlit("点击设置");
    assert(entry_shape(TRANSLATIONS@[59])) by {
        assert(is_cjk("点击设置"@[0]));
    }
    reveal_strlit("Confirm");
    reveal_strlit("确认");
    assert(entry_shape(TRANSLATIONS@[60])) by {
        assert(is_cjk("确认"@[0]));
    }
    reveal_strlit("Confirm popup.");
    reveal_strlit("确认弹窗。");
    assert(entry_shape(TRANSLATIONS@[61])) by {
        assert(is_cjk("确认弹窗。"@[0]));
    }
    reveal_strlit("Convert button");
    reveal_strlit("转换按钮");
    assert(entry_shape(TRANSLATIONS@[62])) by {
        assert(is_cjk("转换按钮"@[0]));
    }
    reveal_strlit("Convert button.");
    reveal_strlit("转换按钮。");
    assert(entry_shape(TRANSLATIONS@[63])) by {
        assert(is_cjk("转换按钮。"@[0]));
    }
    reveal_strlit("Convert Sol Erda to HEXA Booster.");
    reveal_strlit("将 Sol Erda 转换为 HEXA Booster。");
    assert(entry_shape(TRANSLATIONS@[64])) by {
        assert(is_cjk("将 Sol Erda 转换为 HEXA Booster。"@[0]));
    }
    reveal_strlit("Copy");
    reveal_strlit("复制");
    assert(entry_shape(TRANSLATIONS@[65])) by {
        assert(is_cjk("复制"@[0]));
    }
    reveal_strlit("Count");
    reveal_strlit("次数");
    assert(entry_shape(TRANSLATIONS@[66])) by {
        assert(is_cjk("次数"@[0]));
    }
    reveal_strlit("Create");
    reveal_strlit("创建");
    assert(entry_shape(TRANSLATIONS@[67])) by {
        assert(is_cjk("创建"@[0]));
    }
    reveal_strlit("Create a character...");
    reveal_strlit("创建角色...");
    assert(entry_shape(TRANSLATIONS@[68])) by {
        assert(is_cjk("创建角色..."@[0]));
    }
    reveal_strlit("Create a map...");
    reveal_strlit("创建地图...");
    assert(entry_shape(TRANSLATIONS@[69])) by {
        assert(is_cjk("创建地图..."@[0]));
    }
    reveal_strlit("Create an actions preset for the selected map...");
    reveal_strlit("为所选地图创建动作预设...");
    assert(entry_shape(TRANSLATIONS@[70])) by {
        assert(is_cjk("为所选地图创建动作预设..."@[0]));
    }
    reveal_strlit("Debug");
    reveal_strlit("调试");
    assert(entry_shape(TRANSLATIONS@[71])) by {
        assert(is_cjk("调试"@[0]));
    }
    reveal_strlit("Default");
    reveal_strlit("默认");
    assert(entry_shape(TRANSLATIONS@[72])) by {
        assert(is_cjk("默认"@[0]));
    }
    reveal_strlit("Delete");
    reveal_strlit("删除");
    assert(entry_shape(TRANSLATIONS@[73])) by {
        assert(is_cjk("删除"@[0]));
    }
    reveal_strlit("Detect lie detector event.");
    reveal_strlit("检测测谎仪事件。");
    assert(entry_shape(TRANSLATIONS@[74])) by {
        assert(is_cjk("检测测谎仪事件。"@[0]));
    }
    assert forall|j: int| 50 <= j < 75 implies entry_shape(#[trigger] TRANSLATIONS@[j]) by {
        if j == 50 {}
        if j == 51 {}
        if j == 52 {}
        if j == 53 {}
        if j == 54 {}
        if j == 55 {}
        if j == 56 {}
        if j == 57 {}
        if j == 58 {}
        if j == 59 {}
        if j == 60 {}
        if j == 61 {}
        if j == 62 {}
        if j == 63 {}
        if j == 64 {}
        if j == 65 {}
        if j == 66 {}
        if j == 67 {}
        if j == 68 {}
        if j == 69 {}
        if j == 70 {}
        if j == 71 {}
        if j == 72 {}
        if j == 73 {}
        if j == 74 {}
    }
}

proof fn lemma_entries_75_to_100()
    ensures
        forall|j: int| 75 <= j < 100 ==> entry_shape(#[trigger] TRANSLATIONS@[j]),
{
    reveal_strlit("Detect mobs when pathing every");
    reveal_strlit("路径移动时每间隔检测怪物");
    assert(entry_shape(TRANSLATIONS@[75])) by {
        assert(is_cjk("路径移动时每间隔检测怪物"@[0]));
    }
    reveal_strlit("Detect whether change channel menu is opened.");
    reveal_strlit("检测是否打开了切换频道菜单。");
    assert(entry_shape(TRANSLATIONS@[76])) by {
        assert(is_cjk("检测是否打开了切换频道菜单。"@[0]));
    }
    reveal_strlit("Detect whether Generic/HEXA booster is in use.");
    reveal_strlit("检测 Generic/HEXA booster 是否在使用中。");
    assert(entry_shape(TRANSLATIONS@[77])) by {
        assert(is_cjk("检测 Generic/HEXA booster 是否在使用中。"@[0]));
    }
    reveal_strlit("Detect whether player entered cash shop.");
    reveal_strlit("检测玩家是否进入现金商店。");
    assert(entry_shape(TRANSLATIONS@[78])) by {
        assert(is_cjk("检测玩家是否进入现金商店。"@[0]));
    }
    reveal_strlit("Detected size");
    reveal_strlit("检测到的尺寸");
    assert(entry_shape(TRANSLATIONS@[79])) by {
        assert(is_cjk("检测到的尺寸"@[0]));
    }
    reveal_strlit("Detection fails or map changes");
    reveal_strlit("检测失败或地图变化");
    assert(entry_shape(TRANSLATIONS@[80])) by {
        assert(is_cjk("检测失败或地图变化"@[0]));
    }
    reveal_strlit("Disable");
    reveal_strlit("禁用");
    assert(entry_shape(TRANSLATIONS@[81])) by {
        assert(is_cjk("禁用"@[0]));
    }
    reveal_strlit("Disable double jumping");
    reveal_strlit("禁用二段跳");
    assert(entry_shape(TRANSLATIONS@[82])) by {
        assert(is_cjk("禁用二段跳"@[0]));
    }
    reveal_strlit("Disable grapple on double jumping");
    reveal_strlit("二段跳时禁用抓钩");
    assert(entry_shape(TRANSLATIONS@[83])) by {
        assert(is_cjk("二段跳时禁用抓钩"@[0]));
    }
    reveal_strlit("Disable teleport on fall");
    reveal_strlit("下落时禁用传送");
    assert(entry_shape(TRANSLATIONS@[84])) by {
        assert(is_cjk("下落时禁用传送"@[0]));
    }
    reveal_strlit("Disable walking");
    reveal_strlit("禁用行走");
    assert(entry_shape(TRANSLATIONS@[85])) by {
        assert(is_cjk("禁用行走"@[0]));
    }
    reveal_strlit("Discord ping user ID");
    reveal_strlit("Discord 提醒用户 ID");
    assert(entry_shape(TRANSLATIONS@[86])) by {
        assert(is_cjk("Discord 提醒用户 ID"@[8]));
    }
    reveal_strlit("Double jump");
    reveal_strlit("二段跳");
    assert(entry_shape(TRANSLATIONS@[87])) by {
        assert(is_cjk("二段跳"@[0]));
    }
    reveal_strlit("Duration (hh:mm:ss)");
    reveal_strlit("时长 (hh:mm:ss)");
    assert(entry_shape(TRANSLATIONS@[88])) by {
        assert(is_cjk("时长 (hh:mm:ss)"@[0]));
    }
    reveal_strlit("Elite boss spawns");
    reveal_strlit("精英怪刷新");
    assert(entry_shape(TRANSLATIONS@[89])) by {
        assert(is_cjk("精英怪刷新"@[0]));
    }
    reveal_strlit("Elite boss spawns behavior");
    reveal_strlit("精英怪刷新行为");
    assert(entry_shape(TRANSLATIONS@[90])) by {
        assert(is_cjk("精英怪刷新行为"@[0]));
    }
    reveal_strlit("Enable");
    reveal_strlit("启用");
    assert(entry_shape(TRANSLATIONS@[91])) by {
        assert(is_cjk("启用"@[0]));
    }
    reveal_strlit("Enable panic mode");
    reveal_strlit("启用紧急模式");
    assert(entry_shape(TRANSLATIONS@[92])) by {
        assert(is_cjk("启用紧急模式"@[0]));
    }
    reveal_strlit("Enable rune solving");
    reveal_strlit("启用的符文解算");
    assert(entry_shape(TRANSLATIONS@[93])) by {
        assert(is_cjk("启用的符文解算"@[0]));
    }
    reveal_strlit("Enable transparent shape solving");
    reveal_strlit("启用透明形态解算");
    assert(entry_shape(TRANSLATIONS@[94])) by {
        assert(is_cjk("启用透明形态解算"@[0]));
    }
    reveal_strlit("Enable Violetta solving");
    reveal_strlit("启用 Violetta 解算");
    assert(entry_shape(TRANSLATIONS@[95])) by {
        assert(is_cjk("启用 Violetta 解算"@[0]));
    }
    reveal_strlit("Enabled");
    reveal_strlit("已启用");
    assert(entry_shape(TRANSLATIONS@[96])) by {
        assert(is_cjk("已启用"@[0]));
    }
    reveal_strlit("End chat");
    reveal_strlit("结束对话");
    assert(entry_shape(TRANSLATIONS@[97])) by {
        assert(is_cjk("结束对话"@[0]));
    }
    reveal_strlit("Enter a name...");
    reveal_strlit("输入名称...");
    assert(entry_shape(TRANSLATIONS@[98])) by {
        assert(is_cjk("输入名称..."@[0]));
    }
    reveal_strlit("Erda conversion button");
    reveal_strlit("Erda 转换按钮");
    assert(entry_shape(TRANSLATIONS@[99])) by {
        assert(is_cjk("Erda 转换按钮"@[5]));
    }
    assert forall|j: int| 75 <= j < 100 implies entry_shape(#[trigger] TRANSLATIONS@[j]) by {
        if j == 75 {}
        if j == 76 {}
        if j == 77 {}
        if j == 78 {}
        if j == 79 {}
        if j == 80 {}
        if j == 81 {}
        if j == 82 {}
        if j == 83 {}
        if j == 84 {}
        if j == 85 {}
        if j == 86 {}
        if j == 87 {}
        if j == 88 {}
        if j == 89 {}
        if j == 90 {}
        if j == 91 {}
        if j == 92 {}
        if j == 93 {}
        if j == 94 {}
        if j == 95 {}
        if j == 96 {}
        if j == 97 {}
        if j == 98 {}
        if j == 99 {}
    }
}

proof fn lemma_entries_100_to_125()
    ensures
        forall|j: int| 100 <= j < 125 ==> entry_shape(#[trigger] TRANSLATIONS@[j]),
{
    reveal_strlit("Erda conversion button.");
    reveal_strlit("Erda 转换按钮。");
    assert(entry_shape(TRANSLATIONS@[100])) by {
        assert(is_cjk("Erda 转换按钮。"@[5]));
    }
    reveal_strlit("Erda Shower off cooldown");
    reveal_strlit("Erda Shower 冷却结束");
    assert(entry_shape(TRANSLATIONS@[101])) by {
        assert(is_cjk("Erda Shower 冷却结束"@[12]));
    }
    reveal_strlit("Erda Shower off cooldown priority actions");
    reveal_strlit("Erda Shower 冷却结束优先动作");
    assert(entry_shape(TRANSLATIONS@[102])) by {
        assert(is_cjk("Erda Shower 冷却结束优先动作"@[12]));
    }
    reveal_strlit("Every (mm:ss)");
    reveal_strlit("每 (mm:ss)");
    assert(entry_shape(TRANSLATIONS@[103])) by {
        assert(is_cjk("每 (mm:ss)"@[0]));
    }
    reveal_strlit("every milliseconds");
    reveal_strlit("每毫秒");
    assert(entry_shape(TRANSLATIONS@[104])) by {
        assert(is_cjk("每毫秒"@[0]));
    }
    reveal_strlit("Every milliseconds priority actions");
    reveal_strlit("每毫秒优先动作");
    assert(entry_shape(TRANSLATIONS@[105])) by {
        assert(is_cjk("每毫秒优先动作"@[0]));
    }
    reveal_strlit("Exchange all");
    reveal_strlit("全部兑换");
    assert(entry_shape(TRANSLATIONS@[106])) by {
        assert(is_cjk("全部兑换"@[0]));
    }
    reveal_strlit("Exchange when Sol Erda");
    reveal_strlit("当 Sol Erda 时兑换");
    assert(entry_shape(TRANSLATIONS@[107])) by {
        assert(is_cjk("当 Sol Erda 时兑换"@[0]));
    }
    reveal_strlit("EXP Accumulation Potion");
    assert(entry_shape(TRANSLATIONS@[108]));
    reveal_strlit("Export");
    reveal_strlit("导出");
    assert(entry_shape(TRANSLATIONS@[109])) by {
        assert(is_cjk("导出"@[0]));
    }
    reveal_strlit("Extreme Blue Potion");
    assert(entry_shape(TRANSLATIONS@[110]));
    reveal_strlit("Extreme Gold Potion");
    assert(entry_shape(TRANSLATIONS@[111]));
    reveal_strlit("Extreme Green Potion");
    assert(entry_shape(TRANSLATIONS@[112]));
    reveal_strlit("Extreme Red Potion");
    assert(entry_shape(TRANSLATIONS@[113]));
    reveal_strlit("Familiar essence");
    assert(entry_shape(TRANSLATIONS@[114]));
    reveal_strlit("Familiar menu");
    assert(entry_shape(TRANSLATIONS@[115]));
    reveal_strlit("Familiar menu setup tab's save button.");
    reveal_strlit("Familiar 菜单设置标签页的保存按钮。");
    assert(entry_shape(TRANSLATIONS@[116])) by {
        assert(is_cjk("Familiar 菜单设置标签页的保存按钮。"@[9]));
    }
    reveal_strlit("Familiar menu setup tab's setup level sort button.");
    reveal_strlit("Familiar 菜单设置标签页的等级排序按钮。");
    assert(entry_shape(TRANSLATIONS@[117])) by {
        assert(is_cjk("Familiar 菜单设置标签页的等级排序按钮。"@[9]));
    }
    reveal_strlit("Familiar skill");
    assert(entry_shape(TRANSLATIONS@[118]));
    reveal_strlit("Familiars");
    assert(entry_shape(TRANSLATIONS@[119]));
    reveal_strlit("Feed key");
    reveal_strlit("喂食按键");
    assert(entry_shape(TRANSLATIONS@[120])) by {
        assert(is_cjk("喂食按键"@[0]));
    }
    reveal_strlit("Fixed actions");
    reveal_strlit("固定动作");
    assert(entry_shape(TRANSLATIONS@[121])) by {
        assert(is_cjk("固定动作"@[0]));
    }
    reveal_strlit("For The Guild");
    reveal_strlit("为了公会");
    assert(entry_shape(TRANSLATIONS@[122])) by {
        assert(is_cjk("为了公会"@[0]));
    }
    reveal_strlit("Friend appears");
    reveal_strlit("好友出现");
    assert(entry_shape(TRANSLATIONS@[123])) by {
        assert(is_cjk("好友出现"@[0]));
    }
    reveal_strlit("Function");
    reveal_strlit("功能");
    assert(entry_shape(TRANSLATIONS@[124])) by {
        assert(is_cjk("功能"@[0]));
    }
    assert forall|j: int| 100 <= j < 125 implies entry_shape(#[trigger] TRANSLATIONS@[j]) by {
        if j == 100 {}
        if j == 101 {}
        if j == 102 {}
        if j == 103 {}
        if j == 104 {}
        if j == 105 {}
        if j == 106 {}
        if j == 107 {}
        if j == 108 {}
        if j == 109 {}
        if j == 110 {}
        if j == 111 {}
        if j == 112 {}
        if j == 113 {}
        if j == 114 {}
        if j == 115 {}
        if j == 116 {}
        if j == 117 {}
        if j == 118 {}
        if j == 119 {}
        if j == 120 {}
        if j == 121 {}
        if j == 122 {}
        if j == 123 {}
        if j == 124 {}
    }
}

proof fn lemma_entries_125_to_150()
    ensures
        forall|j: int| 125 <= j < 150 ==> entry_shape(#[trigger] TRANSLATIONS@[j]),
{
    reveal_strlit("Generic Booster key");
    reveal_strlit("Generic Booster 按键");
    assert(entry_shape(TRANSLATIONS@[125])) by {
        assert(is_cjk("Generic Booster 按键"@[16]));
    }
    reveal_strlit("Go to town confirmation and save familiars setup.");
    reveal_strlit("前往城镇确认并保存 familiars 设置。");
    assert(entry_shape(TRANSLATIONS@[126])) by {
        assert(is_cjk("前往城镇确认并保存 familiars 设置。"@[0]));
    }
    reveal_strlit("Guildie appears");
    reveal_strlit("公会成员出现");
    assert(entry_shape(TRANSLATIONS@[127])) by {
        assert(is_cjk("公会成员出现"@[0]));
    }
    reveal_strlit("Handle");
    reveal_strlit("句柄");
    assert(entry_shape(TRANSLATIONS@[128])) by {
        assert(is_cjk("句柄"@[0]));
    }
    reveal_strlit("Hard Hitter");
    assert(entry_shape(TRANSLATIONS@[129]));
    reveal_strlit("Has extended teleport range");
    reveal_strlit("拥有扩展传送距离");
    assert(entry_shape(TRANSLATIONS@[130])) by {
        assert(is_cjk("拥有扩展传送距离"@[0]));
    }
    reveal_strlit("Height");
    reveal_strlit("高度");
    assert(entry_shape(TRANSLATIONS@[131])) by {
        assert(is_cjk("高度"@[0]));
    }
    reveal_strlit("HEXA Booster button");
    reveal_strlit("HEXA Booster 按钮");
    assert(entry_shape(TRANSLATIONS@[132])) by {
        assert(is_cjk("HEXA Booster 按钮"@[13]));
    }
    reveal_strlit("HEXA Booster button.");
    reveal_strlit("HEXA Booster 按钮。");
    assert(entry_shape(TRANSLATIONS@[133])) by {
        assert(is_cjk("HEXA Booster 按钮。"@[13]));
    }
    reveal_strlit("HEXA Booster key");
    reveal_strlit("HEXA Booster 按键");
    assert(entry_shape(TRANSLATIONS@[134])) by {
        assert(is_cjk("HEXA Booster 按键"@[13]));
    }
    reveal_strlit("hh:mm:ss");
    assert(entry_shape(TRANSLATIONS@[135]));
    reveal_strlit("Hold for");
    reveal_strlit("按住时长");
    assert(entry_shape(TRANSLATIONS@[136])) by {
        assert(is_cjk("按住时长"@[0]));
    }
    reveal_strlit("Holding buffered");
    reveal_strlit("保持缓冲");
    assert(entry_shape(TRANSLATIONS@[137])) by {
        assert(is_cjk("保持缓冲"@[0]));
    }
    reveal_strlit("Hotkeys");
    reveal_strlit("快捷键");
    assert(entry_shape(TRANSLATIONS@[138])) by {
        assert(is_cjk("快捷键"@[0]));
    }
    reveal_strlit("HP");
    assert(entry_shape(TRANSLATIONS@[139]));
    reveal_strlit("HP below");
    reveal_strlit("HP 低于");
    assert(entry_shape(TRANSLATIONS@[140])) by {
        assert(is_cjk("HP 低于"@[3]));
    }
    reveal_strlit("HP update every");
    reveal_strlit("HP 更新间隔");
    assert(entry_shape(TRANSLATIONS@[141])) by {
        assert(is_cjk("HP 更新间隔"@[3]));
    }
    reveal_strlit("ignoring:✓");
    reveal_strlit("忽略:✓");
    assert(entry_shape(TRANSLATIONS@[142])) by {
        assert(is_cjk("忽略:✓"@[0]));
    }
    reveal_strlit("ignoring:✗");
    reveal_strlit("忽略:✗");
    assert(entry_shape(TRANSLATIONS@[143])) by {
        assert(is_cjk("忽略:✗"@[0]));
    }
    reveal_strlit("Import");
    reveal_strlit("导入");
    assert(entry_shape(TRANSLATIONS@[144])) by {
        assert(is_cjk("导入"@[0]));
    }
    reveal_strlit("Import/export actions");
    reveal_strlit("导入/导出动作");
    assert(entry_shape(TRANSLATIONS@[145])) by {
        assert(is_cjk("导入/导出动作"@[0]));
    }
    reveal_strlit("Info");
    reveal_strlit("信息");
    assert(entry_shape(TRANSLATIONS@[146])) by {
        assert(is_cjk("信息"@[0]));
    }
    reveal_strlit("Input");
    reveal_strlit("输入");
    assert(entry_shape(TRANSLATIONS@[147])) by {
        assert(is_cjk("输入"@[0]));
    }
    reveal_strlit("Input method");
    reveal_strlit("输入方式");
    assert(entry_shape(TRANSLATIONS@[148])) by {
        assert(is_cjk("输入方式"@[0]));
    }
    reveal_strlit("Interact");
    reveal_strlit("交互");
    assert(entry_shape(TRANSLATIONS@[149])) by {
        assert(is_cjk("交互"@[0]));
    }
    assert forall|j: int| 125 <= j < 150 implies entry_shape(#[trigger] TRANSLATIONS@[j]) by {
        if j == 125 {}
        if j == 126 {}
        if j == 127 {}
        if j == 128 {}
        if j == 129 {}
        if j == 130 {}
        if j == 131 {}
        if j == 132 {}
        if j == 133 {}
        if j == 134 {}
        if j == 135 {}
        if j == 136 {}
        if j == 137 {}
        if j == 138 {}
        if j == 139 {}
        if j == 140 {}
        if j == 141 {}
        if j == 142 {}
        if j == 143 {}
        if j == 144 {}
        if j == 145 {}
        if j == 146 {}
        if j == 147 {}
        if j == 148 {}
        if j == 149 {}
    }
}

proof fn lemma_entries_150_to_175()
    ensures
        forall|j: int| 150 <= j < 175 ==> entry_shape(#[trigger] TRANSLATIONS@[j]),
{
    reveal_strlit("Jump");
    reveal_strlit("跳跃");
    assert(entry_shape(TRANSLATIONS@[150])) by {
        assert(is_cjk("跳跃"@[0]));
    }
    reveal_strlit("Jump then up jump if possible");
    reveal_strlit("若可能则跳跃后接二段跳");
    assert(entry_shape(TRANSLATIONS@[151])) by {
        assert(is_cjk("若可能则跳跃后接二段跳"@[0]));
    }
    reveal_strlit("Key");
    reveal_strlit("按键");
    assert(entry_shape(TRANSLATIONS@[152])) by {
        assert(is_cjk("按键"@[0]));
    }
    reveal_strlit("Key bindings");
    reveal_strlit("按键绑定");
    assert(entry_shape(TRANSLATIONS@[153])) by {
        assert(is_cjk("按键绑定"@[0]));
    }
    reveal_strlit("Key to use");
    reveal_strlit("使用按键");
    assert(entry_shape(TRANSLATIONS@[154])) by {
        assert(is_cjk("使用按键"@[0]));
    }
    reveal_strlit("Legion's Luck");
    assert(entry_shape(TRANSLATIONS@[155]));
    reveal_strlit("Legion's Wealth");
    assert(entry_shape(TRANSLATIONS@[156]));
    reveal_strlit("Level sort button");
    reveal_strlit("等级排序按钮");
    assert(entry_shape(TRANSLATIONS@[157])) by {
        assert(is_cjk("等级排序按钮"@[0]));
    }
    reveal_strlit("Lie detector (new)");
    reveal_strlit("测谎仪 (新)");
    assert(entry_shape(TRANSLATIONS@[158])) by {
        assert(is_cjk("测谎仪 (新)"@[0]));
    }
    reveal_strlit("Lie detector (old)");
    reveal_strlit("测谎仪 (旧)");
    assert(entry_shape(TRANSLATIONS@[159])) by {
        assert(is_cjk("测谎仪 (旧)"@[0]));
    }
    reveal_strlit("Lie detector appears");
    reveal_strlit("测谎仪出现");
    assert(entry_shape(TRANSLATIONS@[160])) by {
        assert(is_cjk("测谎仪出现"@[0]));
    }
    reveal_strlit("Lie detector title.");
    reveal_strlit("测谎仪标题。");
    assert(entry_shape(TRANSLATIONS@[161])) by {
        assert(is_cjk("测谎仪标题。"@[0]));
    }
    reveal_strlit("Link key");
    reveal_strlit("连接按键");
    assert(entry_shape(TRANSLATIONS@[162])) by {
        assert(is_cjk("连接按键"@[0]));
    }
    reveal_strlit("Link key timing");
    reveal_strlit("连接按键时机");
    assert(entry_shape(TRANSLATIONS@[163])) by {
        assert(is_cjk("连接按键时机"@[0]));
    }
    reveal_strlit("Link key type");
    reveal_strlit("连接按键类型");
    assert(entry_shape(TRANSLATIONS@[164])) by {
        assert(is_cjk("连接按键类型"@[0]));
    }
    reveal_strlit("linked");
    reveal_strlit("已连接");
    assert(entry_shape(TRANSLATIONS@[165])) by {
        assert(is_cjk("已连接"@[0]));
    }
    reveal_strlit("Linked action");
    reveal_strlit("连接动作");
    assert(entry_shape(TRANSLATIONS@[166])) by {
        assert(is_cjk("连接动作"@[0]));
    }
    reveal_strlit("Mark platform end");
    reveal_strlit("标记平台结束");
    assert(entry_shape(TRANSLATIONS@[167])) by {
        assert(is_cjk("标记平台结束"@[0]));
    }
    reveal_strlit("Mark platform start");
    reveal_strlit("标记平台开始");
    assert(entry_shape(TRANSLATIONS@[168])) by {
        assert(is_cjk("标记平台开始"@[0]));
    }
    reveal_strlit("Max button");
    reveal_strlit("最大按钮");
    assert(entry_shape(TRANSLATIONS@[169])) by {
        assert(is_cjk("最大按钮"@[0]));
    }
    reveal_strlit("Max button.");
    reveal_strlit("最大按钮。");
    assert(entry_shape(TRANSLATIONS@[170])) by {
        assert(is_cjk("最大按钮。"@[0]));
    }
    reveal_strlit("Method");
    reveal_strlit("方式");
    assert(entry_shape(TRANSLATIONS@[171])) by {
        assert(is_cjk("方式"@[0]));
    }
    reveal_strlit("mm:ss");
    assert(entry_shape(TRANSLATIONS@[172]));
    reveal_strlit("Mode");
    reveal_strlit("模式");
    assert(entry_shape(TRANSLATIONS@[173])) by {
        assert(is_cjk("模式"@[0]));
    }
    reveal_strlit("Modify a {name} action");
    reveal_strlit("修改 {name} 动作");
    assert(entry_shape(TRANSLATIONS@[174])) by {
        assert(is_cjk("修改 {name} 动作"@[0]));
    }
    assert forall|j: int| 150 <= j < 175 implies entry_shape(#[trigger] TRANSLATIONS@[j]) by {
        if j == 150 {}
        if j == 151 {}
        if j == 152 {}
        if j == 153 {}
        if j == 154 {}
        if j == 155 {}
        if j == 156 {}
        if j == 157 {}
        if j == 158 {}
        if j == 159 {}
        if j == 160 {}
        if j == 161 {}
        if j == 162 {}
        if j == 163 {}
        if j == 164 {}
        if j == 165 {}
        if j == 166 {}
        if j == 167 {}
        if j == 168 {}
        if j == 169 {}
        if j == 170 {}
        if j == 171 {}
        if j == 172 {}
        if j == 173 {}
        if j == 174 {}
    }
}

proof fn lemma_entries_175_to_200()
    ensures
        forall|j: int| 175 <= j < 200 ==> entry_shape(#[trigger] TRANSLATIONS@[j]),
{
    reveal_strlit("Modify a fixed action");
    reveal_strlit("修改固定动作");
    assert(entry_shape(TRANSLATIONS@[175])) by {
        assert(is_cjk("修改固定动作"@[0]));
    }
    reveal_strlit("Modify mobbing bound");
    reveal_strlit("修改刷怪边界");
    assert(entry_shape(TRANSLATIONS@[176])) by {
        assert(is_cjk("修改刷怪边界"@[0]));
    }
    reveal_strlit("Modify mobbing key");
    reveal_strlit("修改刷怪按键");
    assert(entry_shape(TRANSLATIONS@[177])) by {
        assert(is_cjk("修改刷怪按键"@[0]));
    }
    reveal_strlit("Modify platform");
    reveal_strlit("修改平台");
    assert(entry_shape(TRANSLATIONS@[178])) by {
        assert(is_cjk("修改平台"@[0]));
    }
    reveal_strlit("Move tolerance");
    reveal_strlit("移动容差");
    assert(entry_shape(TRANSLATIONS@[179])) by {
        assert(is_cjk("移动容差"@[0]));
    }
    reveal_strlit("Movement");
    reveal_strlit("移动");
    assert(entry_shape(TRANSLATIONS@[180])) by {
        assert(is_cjk("移动"@[0]));
    }
    reveal_strlit("Next");
    reveal_strlit("下一步");
    assert(entry_shape(TRANSLATIONS@[181])) by {
        assert(is_cjk("下一步"@[0]));
    }
    reveal_strlit("No minimap detected");
    reveal_strlit("未检测到 minimap");
    assert(entry_shape(TRANSLATIONS@[182])) by {
        assert(is_cjk("未检测到 minimap"@[0]));
    }
    reveal_strlit("None");
    reveal_strlit("无");
    assert(entry_shape(TRANSLATIONS@[183])) by {
        assert(is_cjk("无"@[0]));
    }
    reveal_strlit("normal");
    reveal_strlit("普通");
    assert(entry_shape(TRANSLATIONS@[184])) by {
        assert(is_cjk("普通"@[0]));
    }
    reveal_strlit("Normal action");
    reveal_strlit("普通动作");
    assert(entry_shape(TRANSLATIONS@[185])) by {
        assert(is_cjk("普通动作"@[0]));
    }
    reveal_strlit("Normal actions");
    reveal_strlit("普通动作");
    assert(entry_shape(TRANSLATIONS@[186])) by {
        assert(is_cjk("普通动作"@[0]));
    }
    reveal_strlit("Not applicable if an action requires adjusting.");
    reveal_strlit("若动作需要调整则不适用。");
    assert(entry_shape(TRANSLATIONS@[187])) by {
        assert(is_cjk("若动作需要调整则不适用。"@[0]));
    }
    reveal_strlit("Not applicable if an action requires double jumping.");
    reveal_strlit("若动作需要二段跳则不适用。");
    assert(entry_shape(TRANSLATIONS@[188])) by {
        assert(is_cjk("若动作需要二段跳则不适用。"@[0]));
    }
    reveal_strlit("Notifications");
    reveal_strlit("通知");
    assert(entry_shape(TRANSLATIONS@[189])) by {
        assert(is_cjk("通知"@[0]));
    }
    reveal_strlit("Ok (new)");
    reveal_strlit("确定 (新)");
    assert(entry_shape(TRANSLATIONS@[190])) by {
        assert(is_cjk("确定 (新)"@[0]));
    }
    reveal_strlit("Ok (new) popup.");
    reveal_strlit("确定 (新) 弹窗。");
    assert(entry_shape(TRANSLATIONS@[191])) by {
        assert(is_cjk("确定 (新) 弹窗。"@[0]));
    }
    reveal_strlit("Ok (old)");
    reveal_strlit("确定 (旧)");
    assert(entry_shape(TRANSLATIONS@[192])) by {
        assert(is_cjk("确定 (旧)"@[0]));
    }
    reveal_strlit("Open HEXA Booster exchange menu.");
    reveal_strlit("打开 HEXA Booster 兑换菜单。");
    assert(entry_shape(TRANSLATIONS@[193])) by {
        assert(is_cjk("打开 HEXA Booster 兑换菜单。"@[0]));
    }
    reveal_strlit("Open Sol Erda version menu in HEXA Matrix.");
    reveal_strlit("在 HEXA Matrix 中打开 Sol Erda 版本菜单。");
    assert(entry_shape(TRANSLATIONS@[194])) by {
        assert(is_cjk("在 HEXA Matrix 中打开 Sol Erda 版本菜单。"@[0]));
    }
    reveal_strlit("Others");
    reveal_strlit("其他");
    assert(entry_shape(TRANSLATIONS@[195])) by {
        assert(is_cjk("其他"@[0]));
    }
    reveal_strlit("Pathing means when the player is moving from one quad to another.");
    reveal_strlit("路径移动指玩家从一个区块移动到另一个区块。");
    assert(entry_shape(TRANSLATIONS@[196])) by {
        assert(is_cjk("路径移动指玩家从一个区块移动到另一个区块。"@[0]));
    }
    reveal_strlit("Pause");
    reveal_strlit("暂停");
    assert(entry_shape(TRANSLATIONS@[197])) by {
        assert(is_cjk("暂停"@[0]));
    }
    reveal_strlit("Pixel radius for considering a move as arrived. Values above 25 for normal classes or 12 for mages may cause movement issues, as the character may double jump within the tolerance instead of moving along the Y axis.");
    reveal_strlit("判定移动已到达的像素半径。普通职业超过 25 或法师超过 12 可能导致移动问题，因为角色可能在容差范围内二段跳而非沿 Y 轴移动。");
    assert(entry_shape(TRANSLATIONS@[198])) by {
        assert(is_cjk("判定移动已到达的像素半径。普通职业超过 25 或法师超过 12 可能导致移动问题，因为角色可能在容差范围内二段跳而非沿 Y 轴移动。"@[0]));
    }
    reveal_strlit("Platforms");
    reveal_strlit("平台");
    assert(entry_shape(TRANSLATIONS@[199])) by {
        assert(is_cjk("平台"@[0]));
    }
    assert forall|j: int| 175 <= j < 200 implies entry_shape(#[trigger] TRANSLATIONS@[j]) by {
        if j == 175 {}
        if j == 176 {}
        if j == 177 {}
        if j == 178 {}
        if j == 179 {}
        if j == 180 {}
        if j == 181 {}
        if j == 182 {}
        if j == 183 {}
        if j == 184 {}
        if j == 185 {}
        if j == 186 {}
        if j == 187 {}
        if j == 188 {}
        if j == 189 {}
        if j == 190 {}
        if j == 191 {}
        if j == 192 {}
        if j == 193 {}
        if j == 194 {}
        if j == 195 {}
        if j == 196 {}
        if j == 197 {}
        if j == 198 {}
        if j == 199 {}
    }
}

proof fn lemma_entries_200_to_225()
    ensures
        forall|j: int| 200 <= j < 225 ==> entry_shape(#[trigger] TRANSLATIONS@[j]),
{
    reveal_strlit("Player dies");
    reveal_strlit("玩家死亡");
    assert(entry_shape(TRANSLATIONS@[200])) by {
        assert(is_cjk("玩家死亡"@[0]));
    }
    reveal_strlit("Popups");
    reveal_strlit("弹窗");
    assert(entry_shape(TRANSLATIONS@[201])) by {
        assert(is_cjk("弹窗"@[0]));
    }
    reveal_strlit("Position");
    reveal_strlit("位置");
    assert(entry_shape(TRANSLATIONS@[202])) by {
        assert(is_cjk("位置"@[0]));
    }
    reveal_strlit("Positioned");
    reveal_strlit("已就位");
    assert(entry_shape(TRANSLATIONS@[203])) by {
        assert(is_cjk("已就位"@[0]));
    }
    reveal_strlit("Potion key");
    reveal_strlit("药水按键");
    assert(entry_shape(TRANSLATIONS@[204])) by {
        assert(is_cjk("药水按键"@[0]));
    }
    reveal_strlit("Press any key...");
    reveal_strlit("按任意键...");
    assert(entry_shape(TRANSLATIONS@[205])) by {
        assert(is_cjk("按任意键..."@[0]));
    }
    reveal_strlit("Priority");
    reveal_strlit("优先级");
    assert(entry_shape(TRANSLATIONS@[206])) by {
        assert(is_cjk("优先级"@[0]));
    }
    reveal_strlit("Priority action");
    reveal_strlit("优先动作");
    assert(entry_shape(TRANSLATIONS@[207])) by {
        assert(is_cjk("优先动作"@[0]));
    }
    reveal_strlit("Queue to front");
    reveal_strlit("排到最前");
    assert(entry_shape(TRANSLATIONS@[208])) by {
        assert(is_cjk("排到最前"@[0]));
    }
    reveal_strlit("Re-detect");
    reveal_strlit("重新检测");
    assert(entry_shape(TRANSLATIONS@[209])) by {
        assert(is_cjk("重新检测"@[0]));
    }
    reveal_strlit("Refresh handles");
    reveal_strlit("刷新句柄");
    assert(entry_shape(TRANSLATIONS@[210])) by {
        assert(is_cjk("刷新句柄"@[0]));
    }
    reveal_strlit("Replace");
    reveal_strlit("替换");
    assert(entry_shape(TRANSLATIONS@[211])) by {
        assert(is_cjk("替换"@[0]));
    }
    reveal_strlit("Require [Wait after buffered] to be enabled and without [Link key]. When enabled, the holding time will be added to [Wait after] during the last key use. Useful for holding down key and moving simultaneously.");
    reveal_strlit("需要启用 [Wait after buffered] 且未使用 [Link key]。启用后，在最后一次按键使用时，按住时长会加到 [Wait after] 上。适用于同时按住按键并移动的场景。");
    assert(entry_shape(TRANSLATIONS@[212])) by {
        assert(is_cjk("需要启用 [Wait after buffered] 且未使用 [Link key]。启用后，在最后一次按键使用时，按住时长会加到 [Wait after] 上。适用于同时按住按键并移动的场景。"@[0]));
    }
    reveal_strlit("Requires HEXA Booster to be visible in quick slots, Sol Erda tracker menu opened and HEXA Matrix configured in the quick menu. Exchange will only happen if there is no HEXA Booster.");
    reveal_strlit("需要 HEXA Booster 在快捷栏可见、Sol Erda 追踪菜单已打开且 HEXA Matrix 已在快捷菜单中配置。仅当没有 HEXA Booster 时才会兑换。");
    assert(entry_shape(TRANSLATIONS@[213])) by {
        assert(is_cjk("需要 HEXA Booster 在快捷栏可见、Sol Erda 追踪菜单已打开且 HEXA Matrix 已在快捷菜单中配置。仅当没有 HEXA Booster 时才会兑换。"@[0]));
    }
    reveal_strlit("Reset");
    reveal_strlit("重置");
    assert(entry_shape(TRANSLATIONS@[214])) by {
        assert(is_cjk("重置"@[0]));
    }
    reveal_strlit("Reset normal actions on Erda Shower resets");
    reveal_strlit("Erda Shower 重置时重置普通动作");
    assert(entry_shape(TRANSLATIONS@[215])) by {
        assert(is_cjk("Erda Shower 重置时重置普通动作"@[12]));
    }
    reveal_strlit("Respawn on player death.");
    reveal_strlit("玩家死亡时重生。");
    assert(entry_shape(TRANSLATIONS@[216])) by {
        assert(is_cjk("玩家死亡时重生。"@[0]));
    }
    reveal_strlit("Resume");
    reveal_strlit("继续");
    assert(entry_shape(TRANSLATIONS@[217])) by {
        assert(is_cjk("继续"@[0]));
    }
    reveal_strlit("Rope lift");
    reveal_strlit("绳索升降");
    assert(entry_shape(TRANSLATIONS@[218])) by {
        assert(is_cjk("绳索升降"@[0]));
    }
    reveal_strlit("Rotation");
    reveal_strlit("轮换");
    assert(entry_shape(TRANSLATIONS@[219])) by {
        assert(is_cjk("轮换"@[0]));
    }
    reveal_strlit("Rotator Debug");
    reveal_strlit("轮换器调试");
    assert(entry_shape(TRANSLATIONS@[220])) by {
        assert(is_cjk("轮换器调试"@[0]));
    }
    reveal_strlit("RPC server URL");
    reveal_strlit("RPC 服务器 URL");
    assert(entry_shape(TRANSLATIONS@[221])) by {
        assert(is_cjk("RPC 服务器 URL"@[4]));
    }
    reveal_strlit("Run timer");
    reveal_strlit("运行计时器");
    assert(entry_shape(TRANSLATIONS@[222])) by {
        assert(is_cjk("运行计时器"@[0]));
    }
    reveal_strlit("Run timer ends");
    reveal_strlit("运行计时器结束");
    assert(entry_shape(TRANSLATIONS@[223])) by {
        assert(is_cjk("运行计时器结束"@[0]));
    }
    reveal_strlit("Rune pathing");
    reveal_strlit("符文路径");
    assert(entry_shape(TRANSLATIONS@[224])) by {
        assert(is_cjk("符文路径"@[0]));
    }
    assert forall|j: int| 200 <= j < 225 implies entry_shape(#[trigger] TRANSLATIONS@[j]) by {
        if j == 200 {}
        if j == 201 {}
        if j == 202 {}
        if j == 203 {}
        if j == 204 {}
        if j == 205 {}
        if j == 206 {}
        if j == 207 {}
        if j == 208 {}
        if j == 209 {}
        if j == 210 {}
        if j == 211 {}
        if j == 212 {}
        if j == 213 {}
        if j == 214 {}
        if j == 215 {}
        if j == 216 {}
        if j == 217 {}
        if j == 218 {}
        if j == 219 {}
        if j == 220 {}
        if j == 221 {}
        if j == 222 {}
        if j == 223 {}
        if j == 224 {}
    }
}

proof fn lemma_entries_225_to_250()
    ensures
        forall|j: int| 225 <= j < 250 ==> entry_shape(#[trigger] TRANSLATIONS@[j]),
{
    reveal_strlit("Rune spawns");
    reveal_strlit("符文刷新");
    assert(entry_shape(TRANSLATIONS@[225])) by {
        assert(is_cjk("符文刷新"@[0]));
    }
    reveal_strlit("Save");
    reveal_strlit("保存");
    assert(entry_shape(TRANSLATIONS@[226])) by {
        assert(is_cjk("保存"@[0]));
    }
    reveal_strlit("Save button");
    reveal_strlit("保存按钮");
    assert(entry_shape(TRANSLATIONS@[227])) by {
        assert(is_cjk("保存按钮"@[0]));
    }
    reveal_strlit("Save familiars setup after swapping.");
    reveal_strlit("交换后保存 familiars 设置。");
    assert(entry_shape(TRANSLATIONS@[228])) by {
        assert(is_cjk("交换后保存 familiars 设置。"@[0]));
    }
    reveal_strlit("Sayram's Elixir");
    assert(entry_shape(TRANSLATIONS@[229]));
    reveal_strlit("Section");
    reveal_strlit("区块");
    assert(entry_shape(TRANSLATIONS@[230])) by {
        assert(is_cjk("区块"@[0]));
    }
    reveal_strlit("Select max HEXA Booster amount to exchange.");
    reveal_strlit("选择要兑换的最大 HEXA Booster 数量。");
    assert(entry_shape(TRANSLATIONS@[231])) by {
        assert(is_cjk("选择要兑换的最大 HEXA Booster 数量。"@[0]));
    }
    reveal_strlit("Selected size");
    reveal_strlit("选中的尺寸");
    assert(entry_shape(TRANSLATIONS@[232])) by {
        assert(is_cjk("选中的尺寸"@[0]));
    }
    reveal_strlit("Side");
    reveal_strlit("方向");
    assert(entry_shape(TRANSLATIONS@[233])) by {
        assert(is_cjk("方向"@[0]));
    }
    reveal_strlit("Small EXP Accumulation Potion");
    assert(entry_shape(TRANSLATIONS@[234]));
    reveal_strlit("Small Wealth Acquisition Potion");
    assert(entry_shape(TRANSLATIONS@[235]));
    reveal_strlit("Sort familiar cards by level before swapping.");
    reveal_strlit("交换前按等级排序 familiar 卡片。");
    assert(entry_shape(TRANSLATIONS@[236])) by {
        assert(is_cjk("交换前按等级排序 familiar 卡片。"@[0]));
    }
    reveal_strlit("Start auto record lie detector");
    reveal_strlit("开始自动记录测谎仪");
    assert(entry_shape(TRANSLATIONS@[237])) by {
        assert(is_cjk("开始自动记录测谎仪"@[0]));
    }
    reveal_strlit("Start auto saving rune");
    reveal_strlit("开始自动保存符文");
    assert(entry_shape(TRANSLATIONS@[238])) by {
        assert(is_cjk("开始自动保存符文"@[0]));
    }
    reveal_strlit("Start recording");
    reveal_strlit("开始录制");
    assert(entry_shape(TRANSLATIONS@[239])) by {
        assert(is_cjk("开始录制"@[0]));
    }
    reveal_strlit("State");
    reveal_strlit("状态");
    assert(entry_shape(TRANSLATIONS@[240])) by {
        assert(is_cjk("状态"@[0]));
    }
    reveal_strlit("Stationary");
    reveal_strlit("静止");
    assert(entry_shape(TRANSLATIONS@[241])) by {
        assert(is_cjk("静止"@[0]));
    }
    reveal_strlit("Stop actions on fail or map changed");
    reveal_strlit("失败或地图变化时停止动作");
    assert(entry_shape(TRANSLATIONS@[242])) by {
        assert(is_cjk("失败或地图变化时停止动作"@[0]));
    }
    reveal_strlit("Stop actions on player dies");
    reveal_strlit("玩家死亡时停止动作");
    assert(entry_shape(TRANSLATIONS@[243])) by {
        assert(is_cjk("玩家死亡时停止动作"@[0]));
    }
    reveal_strlit("Stop auto record lie detector");
    reveal_strlit("停止自动记录测谎仪");
    assert(entry_shape(TRANSLATIONS@[244])) by {
        assert(is_cjk("停止自动记录测谎仪"@[0]));
    }
    reveal_strlit("Stop auto saving rune");
    reveal_strlit("停止自动保存符文");
    assert(entry_shape(TRANSLATIONS@[245])) by {
        assert(is_cjk("停止自动保存符文"@[0]));
    }
    reveal_strlit("Stop recording");
    reveal_strlit("停止录制");
    assert(entry_shape(TRANSLATIONS@[246])) by {
        assert(is_cjk("停止录制"@[0]));
    }
    reveal_strlit("Stranger appears");
    reveal_strlit("陌生人出现");
    assert(entry_shape(TRANSLATIONS@[247])) by {
        assert(is_cjk("陌生人出现"@[0]));
    }
    reveal_strlit("Swap check every (mm:ss)");
    reveal_strlit("交换检查间隔 (mm:ss)");
    assert(entry_shape(TRANSLATIONS@[248])) by {
        assert(is_cjk("交换检查间隔 (mm:ss)"@[0]));
    }
    reveal_strlit("Swappable slots");
    reveal_strlit("可交换槽位");
    assert(entry_shape(TRANSLATIONS@[249])) by {
        assert(is_cjk("可交换槽位"@[0]));
    }
    assert forall|j: int| 225 <= j < 250 implies entry_shape(#[trigger] TRANSLATIONS@[j]) by {
        if j == 225 {}
        if j == 226 {}
        if j == 227 {}
        if j == 228 {}
        if j == 229 {}
        if j == 230 {}
        if j == 231 {}
        if j == 232 {}
        if j == 233 {}
        if j == 234 {}
        if j == 235 {}
        if j == 236 {}
        if j == 237 {}
        if j == 238 {}
        if j == 239 {}
        if j == 240 {}
        if j == 241 {}
        if j == 242 {}
        if j == 243 {}
        if j == 244 {}
        if j == 245 {}
        if j == 246 {}
        if j == 247 {}
        if j == 248 {}
        if j == 249 {}
    }
}

proof fn lemma_entries_250_to_275()
    ensures
        forall|j: int| 250 <= j < 275 ==> entry_shape(#[trigger] TRANSLATIONS@[j]),
{
    reveal_strlit("Swapping enabled");
    reveal_strlit("交换已启用");
    assert(entry_shape(TRANSLATIONS@[250])) by {
        assert(is_cjk("交换已启用"@[0]));
    }
    reveal_strlit("Switch to key");
    reveal_strlit("切换到按键");
    assert(entry_shape(TRANSLATIONS@[251])) by {
        assert(is_cjk("切换到按键"@[0]));
    }
    reveal_strlit("Switch to move");
    reveal_strlit("切换到移动");
    assert(entry_shape(TRANSLATIONS@[252])) by {
        assert(is_cjk("切换到移动"@[0]));
    }
    reveal_strlit("Teleport");
    reveal_strlit("传送");
    assert(entry_shape(TRANSLATIONS@[253])) by {
        assert(is_cjk("传送"@[0]));
    }
    reveal_strlit("Template(s)");
    reveal_strlit("模板");
    assert(entry_shape(TRANSLATIONS@[254])) by {
        assert(is_cjk("模板"@[0]));
    }
    reveal_strlit("Test spin rune");
    reveal_strlit("测试旋转符文");
    assert(entry_shape(TRANSLATIONS@[255])) by {
        assert(is_cjk("测试旋转符文"@[0]));
    }
    reveal_strlit("Test transparent shape hard");
    reveal_strlit("测试透明形态（困难）");
    assert(entry_shape(TRANSLATIONS@[256])) by {
        assert(is_cjk("测试透明形态（困难）"@[0]));
    }
    reveal_strlit("Test transparent shape normal");
    reveal_strlit("测试透明形态（普通）");
    assert(entry_shape(TRANSLATIONS@[257])) by {
        assert(is_cjk("测试透明形态（普通）"@[0]));
    }
    reveal_strlit("Test Violetta");
    reveal_strlit("测试 Violetta");
    assert(entry_shape(TRANSLATIONS@[258])) by {
        assert(is_cjk("测试 Violetta"@[0]));
    }
    reveal_strlit("This is meant for classes that have a separate skill to up jump. Classes that use up arrow should set this key to up arrow.");
    reveal_strlit("这适用于拥有独立二段跳技能的职业。使用上箭头的职业应将此按键设为上箭头。");
    assert(entry_shape(TRANSLATIONS@[259])) by {
        assert(is_cjk("这适用于拥有独立二段跳技能的职业。使用上箭头的职业应将此按键设为上箭头。"@[0]));
    }
    reveal_strlit("This key must be set to use familiars swapping feature.");
    reveal_strlit("必须使用此按键才能使用 familiars 交换功能。");
    assert(entry_shape(TRANSLATIONS@[260])) by {
        assert(is_cjk("必须使用此按键才能使用 familiars 交换功能。"@[0]));
    }
    reveal_strlit("This key must be set to use navigation or run/stop cycle features.");
    reveal_strlit("必须使用此按键才能使用导航或运行/停止循环功能。");
    assert(entry_shape(TRANSLATIONS@[261])) by {
        assert(is_cjk("必须使用此按键才能使用导航或运行/停止循环功能。"@[0]));
    }
    reveal_strlit("This key must be set to use panic mode or elite boss spawns behavior features.");
    reveal_strlit("必须使用此按键才能使用紧急模式或精英怪刷新行为功能。");
    assert(entry_shape(TRANSLATIONS@[262])) by {
        assert(is_cjk("必须使用此按键才能使用紧急模式或精英怪刷新行为功能。"@[0]));
    }
    reveal_strlit("This template is in grayscale.");
    reveal_strlit("此模板为灰度图。");
    assert(entry_shape(TRANSLATIONS@[263])) by {
        assert(is_cjk("此模板为灰度图。"@[0]));
    }
    reveal_strlit("Timer");
    reveal_strlit("计时器");
    assert(entry_shape(TRANSLATIONS@[264])) by {
        assert(is_cjk("计时器"@[0]));
    }
    reveal_strlit("Timer text.");
    reveal_strlit("计时器文本。");
    assert(entry_shape(TRANSLATIONS@[265])) by {
        assert(is_cjk("计时器文本。"@[0]));
    }
    reveal_strlit("To town");
    reveal_strlit("前往城镇");
    assert(entry_shape(TRANSLATIONS@[266])) by {
        assert(is_cjk("前往城镇"@[0]));
    }
    reveal_strlit("Toggle start/stop actions");
    reveal_strlit("切换开始/停止动作");
    assert(entry_shape(TRANSLATIONS@[267])) by {
        assert(is_cjk("切换开始/停止动作"@[0]));
    }
    reveal_strlit("Unknown");
    reveal_strlit("未知");
    assert(entry_shape(TRANSLATIONS@[268])) by {
        assert(is_cjk("未知"@[0]));
    }
    reveal_strlit("Unstuck player through closing menu, popup, dialog, etc.");
    reveal_strlit("通过关闭菜单、弹窗、对话框等解除玩家卡死。");
    assert(entry_shape(TRANSLATIONS@[269])) by {
        assert(is_cjk("通过关闭菜单、弹窗、对话框等解除玩家卡死。"@[0]));
    }
    reveal_strlit("Up jump");
    reveal_strlit("二段跳");
    assert(entry_shape(TRANSLATIONS@[270])) by {
        assert(is_cjk("二段跳"@[0]));
    }
    reveal_strlit("Up jump is flight");
    reveal_strlit("二段跳即飞行");
    assert(entry_shape(TRANSLATIONS@[271])) by {
        assert(is_cjk("二段跳即飞行"@[0]));
    }
    reveal_strlit("Up jump only");
    reveal_strlit("仅二段跳");
    assert(entry_shape(TRANSLATIONS@[272])) by {
        assert(is_cjk("仅二段跳"@[0]));
    }
    reveal_strlit("Update");
    reveal_strlit("更新");
    assert(entry_shape(TRANSLATIONS@[273])) by {
        assert(is_cjk("更新"@[0]));
    }
    reveal_strlit("Update mobbing bound");
    reveal_strlit("更新刷怪边界");
    assert(entry_shape(TRANSLATIONS@[274])) by {
        assert(is_cjk("更新刷怪边界"@[0]));
    }
    assert forall|j: int| 250 <= j < 275 implies entry_shape(#[trigger] TRANSLATIONS@[j]) by {
        if j == 250 {}
        if j == 251 {}
        if j == 252 {}
        if j == 253 {}
        if j == 254 {}
        if j == 255 {}
        if j == 256 {}
        if j == 257 {}
        if j == 258 {}
        if j == 259 {}
        if j == 260 {}
        if j == 261 {}
        if j == 262 {}
        if j == 263 {}
        if j == 264 {}
        if j == 265 {}
        if j == 266 {}
        if j == 267 {}
        if j == 268 {}
        if j == 269 {}
        if j == 270 {}
        if j == 271 {}
        if j == 272 {}
        if j == 273 {}
        if j == 274 {}
    }
}

proof fn lemma_entries_275_to_300()
    ensures
        forall|j: int| 275 <= j < 300 ==> entry_shape(#[trigger] TRANSLATIONS@[j]),
{
    reveal_strlit("Update mobbing key");
    reveal_strlit("更新刷怪按键");
    assert(entry_shape(TRANSLATIONS@[275])) by {
        assert(is_cjk("更新刷怪按键"@[0]));
    }
    reveal_strlit("Use booster");
    reveal_strlit("使用 booster");
    assert(entry_shape(TRANSLATIONS@[276])) by {
        assert(is_cjk("使用 booster"@[0]));
    }
    reveal_strlit("Use count");
    reveal_strlit("使用次数");
    assert(entry_shape(TRANSLATIONS@[277])) by {
        assert(is_cjk("使用次数"@[0]));
    }
    reveal_strlit("Use direction");
    reveal_strlit("使用方向");
    assert(entry_shape(TRANSLATIONS@[278])) by {
        assert(is_cjk("使用方向"@[0]));
    }
    reveal_strlit("Use every");
    reveal_strlit("每间隔使用");
    assert(entry_shape(TRANSLATIONS@[279])) by {
        assert(is_cjk("每间隔使用"@[0]));
    }
    reveal_strlit("Use potion and feed pet");
    reveal_strlit("使用药水并喂养宠物");
    assert(entry_shape(TRANSLATIONS@[280])) by {
        assert(is_cjk("使用药水并喂养宠物"@[0]));
    }
    reveal_strlit("Use with");
    reveal_strlit("配合使用");
    assert(entry_shape(TRANSLATIONS@[281])) by {
        assert(is_cjk("配合使用"@[0]));
    }
    reveal_strlit("Wait after buffered");
    reveal_strlit("缓冲后等待");
    assert(entry_shape(TRANSLATIONS@[282])) by {
        assert(is_cjk("缓冲后等待"@[0]));
    }
    reveal_strlit("Wait after move");
    reveal_strlit("移动后等待");
    assert(entry_shape(TRANSLATIONS@[283])) by {
        assert(is_cjk("移动后等待"@[0]));
    }
    reveal_strlit("Wait after use");
    reveal_strlit("使用后等待");
    assert(entry_shape(TRANSLATIONS@[284])) by {
        assert(is_cjk("使用后等待"@[0]));
    }
    reveal_strlit("Wait before use");
    reveal_strlit("使用前置等待");
    assert(entry_shape(TRANSLATIONS@[285])) by {
        assert(is_cjk("使用前置等待"@[0]));
    }
    reveal_strlit("Wait random range");
    reveal_strlit("随机等待范围");
    assert(entry_shape(TRANSLATIONS@[286])) by {
        assert(is_cjk("随机等待范围"@[0]));
    }
    reveal_strlit("Wealth Acquisition Potion");
    assert(entry_shape(TRANSLATIONS@[287]));
    reveal_strlit("Webhook provider");
    reveal_strlit("Webhook 提供方");
    assert(entry_shape(TRANSLATIONS@[288])) by {
        assert(is_cjk("Webhook 提供方"@[8]));
    }
    reveal_strlit("Webhook URL");
    assert(entry_shape(TRANSLATIONS@[289]));
    reveal_strlit("Width");
    reveal_strlit("宽度");
    assert(entry_shape(TRANSLATIONS@[290])) by {
        assert(is_cjk("宽度"@[0]));
    }
    reveal_strlit("X");
    assert(entry_shape(TRANSLATIONS@[291]));
    reveal_strlit("X end");
    reveal_strlit("X 结束");
    assert(entry_shape(TRANSLATIONS@[292])) by {
        assert(is_cjk("X 结束"@[2]));
    }
    reveal_strlit("X offset");
    reveal_strlit("X 偏移");
    assert(entry_shape(TRANSLATIONS@[293])) by {
        assert(is_cjk("X 偏移"@[2]));
    }
    reveal_strlit("X random range");
    reveal_strlit("X 随机范围");
    assert(entry_shape(TRANSLATIONS@[294])) by {
        assert(is_cjk("X 随机范围"@[2]));
    }
    reveal_strlit("X range");
    reveal_strlit("X 范围");
    assert(entry_shape(TRANSLATIONS@[295])) by {
        assert(is_cjk("X 范围"@[2]));
    }
    reveal_strlit("X start");
    reveal_strlit("X 开始");
    assert(entry_shape(TRANSLATIONS@[296])) by {
        assert(is_cjk("X 开始"@[2]));
    }
    reveal_strlit("Y");
    assert(entry_shape(TRANSLATIONS@[297]));
    reveal_strlit("Y offset");
    reveal_strlit("Y 偏移");
    assert(entry_shape(TRANSLATIONS@[298])) by {
        assert(is_cjk("Y 偏移"@[2]));
    }
    reveal_strlit("Yes");
    reveal_strlit("是");
    assert(entry_shape(TRANSLATIONS@[299])) by {
        assert(is_cjk("是"@[0]));
    }
    assert forall|j: int| 275 <= j < 300 implies entry_shape(#[trigger] TRANSLATIONS@[j]) by {
        if j == 275 {}
        if j == 276 {}
        if j == 277 {}
        if j == 278 {}
        if j == 279 {}
        if j == 280 {}
        if j == 281 {}
        if j == 282 {}
        if j == 283 {}
        if j == 284 {}
        if j == 285 {}
        if j == 286 {}
        if j == 287 {}
        if j == 288 {}
        if j == 289 {}
        if j == 290 {}
        if j == 291 {}
        if j == 292 {}
        if j == 293 {}
        if j == 294 {}
        if j == 295 {}
        if j == 296 {}
        if j == 297 {}
        if j == 298 {}
        if j == 299 {}
    }
}

proof fn lemma_entries_300_to_301()
    ensures
        forall|j: int| 300 <= j < 301 ==> entry_shape(#[trigger] TRANSLATIONS@[j]),
{
    reveal_strlit("ㄨ - No position");
    reveal_strlit("ㄨ - 无位置");
    assert(entry_shape(TRANSLATIONS@[300])) by {
        assert(is_cjk("ㄨ - 无位置"@[4]));
    }
    assert forall|j: int| 300 <= j < 301 implies entry_shape(#[trigger] TRANSLATIONS@[j]) by {
        if j == 300 {}
    }
}

/// Every entry of the table has the shape of `entry_shape`.
pub proof fn lemma_table_shape()
    ensures
        forall|j: int| 0 <= j < TRANSLATION_COUNT ==> entry_shape(#[trigger] TRANSLATIONS@[j]),
{
    lemma_entries_0_to_25();
    lemma_entries_25_to_50();
    lemma_entries_50_to_75();
    lemma_entries_75_to_100();
    lemma_entries_100_to_125();
    lemma_entries_125_to_150();
    lemma_entries_150_to_175();
    lemma_entries_175_to_200();
    lemma_entries_200_to_225();
    lemma_entries_225_to_250();
    lemma_entries_250_to_275();
    lemma_entries_275_to_300();
    lemma_entries_300_to_301();
}

/// A lookup that finds something found it in some entry with that key.
pub proof fn lemma_lookup_found(table: Seq<(&'static str, &'static str)>, key: Seq<char>)
    ensures
        lookup(table, key) matches Some(text) ==> exists|j: int|
            0 <= j < table.len() && (#[trigger] table[j]).0@ == key && table[j].1@ == text,
        lookup(table, key) is None ==> forall|j: int| 0 <= j < table.len() ==> (#[trigger] table[j]).0@ != key,
    decreases table.len(),
{
    if table.len() > 0 {
        lemma_lookup_found(table.drop_first(), key);
        if table[0].0@ != key {
            if let Some(text) = lookup(table, key) {
                let j = choose|j: int|
                    0 <= j < table.drop_first().len() && (#[trigger] table.drop_first()[j]).0@ == key
                        && table.drop_first()[j].1@ == text;
                assert(table[j + 1] == table.drop_first()[j]);
            } else {
                assert forall|j: int| 0 <= j < table.len() implies (#[trigger] table[j]).0@ != key by {
                    if j > 0 {
                        assert(table[j] == table.drop_first()[j - 1]);
                    }
                }
            }
        }
    }
}

/// A lookup of text that no key holds finds nothing.
pub proof fn lemma_lookup_missing(table: Seq<(&'static str, &'static str)>, key: Seq<char>)
    requires
        forall|j: int| 0 <= j < table.len() ==> (#[trigger] table[j]).0@ != key,
    ensures
        lookup(table, key) is None,
    decreases table.len(),
{
    if table.len() > 0 {
        assert forall|j: int| 0 <= j < table.drop_first().len() implies (#[trigger] table.drop_first()[j]).0@ != key by {
            assert(table.drop_first()[j] == table[j + 1]);
        }
        lemma_lookup_missing(table.drop_first(), key);
    }
}

/// Translating twice gives what translating once gives: no translation in the
/// table is a different key of it.
pub proof fn lemma_tr_idempotent(key: Seq<char>)
    ensures
        translated(translated(key)) == translated(key),
{
    lemma_table_shape();
    let table = TRANSLATIONS@;
    lemma_lookup_found(table, key);
    if let Some(text) = lookup(table, key) {
        let j = choose|j: int| 0 <= j < table.len() && (#[trigger] table[j]).0@ == key && table[j].1@ == text;
        assert(entry_shape(table[j]));
        if text != key {
            assert(has_cjk(text));
            let p = choose|p: int| 0 <= p < text.len() && is_cjk(#[trigger] text[p]);
            assert forall|i: int| 0 <= i < table.len() implies (#[trigger] table[i]).0@ != text by {
                assert(entry_shape(table[i]));
                if table[i].0@ == text {
                    assert(is_cjk(table[i].0@[p]));
                }
            }
            lemma_lookup_missing(table, text);
        }
    }
}

} // verus!
