//! The about page: the world tree that grows new leaves when touched, and
//! its outbound links.

use vstd::prelude::*;

use crate::text::{i64_text, spec_int_text};

verus! {

/// The leaves of the tree: position and angle, in drawing order.
pub open spec fn leaves_spec() -> Seq<(i32, i32, i32)> {
    seq![
        (200i32, 80i32, -40i32), (184i32, 99i32, -110i32), (218i32, 106i32, -10i32), (168i32, 120i32, -135i32), (235i32, 128i32, -5i32),
        (143i32, 139i32, -135i32), (256i32, 146i32, 5i32), (114i32, 159i32, -145i32), (281i32, 169i32, 15i32), (154i32, 171i32, -100i32),
        (244i32, 181i32, -5i32), (177i32, 151i32, -120i32), (222i32, 159i32, -25i32), (132i32, 190i32, -150i32), (263i32, 204i32, 20i32),
        (100i32, 206i32, -150i32), (298i32, 218i32, 25i32), (168i32, 210i32, -120i32), (229i32, 219i32, -15i32), (144i32, 226i32, -160i32),
        (250i32, 239i32, 25i32), (186i32, 188i32, -110i32), (212i32, 198i32, -30i32), (199i32, 126i32, -55i32),
    ]
}

/// The leaves of the tree.
pub fn leaves() -> (r: Vec<(i32, i32, i32)>)
    ensures
        r@ == leaves_spec(),
{
    let r = vec![
        (200, 80, -40), (184, 99, -110), (218, 106, -10), (168, 120, -135), (235, 128, -5),
        (143, 139, -135), (256, 146, 5), (114, 159, -145), (281, 169, 15), (154, 171, -100),
        (244, 181, -5), (177, 151, -120), (222, 159, -25), (132, 190, -150), (263, 204, 20),
        (100, 206, -150), (298, 218, 25), (168, 210, -120), (229, 219, -15), (144, 226, -160),
        (250, 239, 25), (186, 188, -110), (212, 198, -30), (199, 126, -55),
    ];
    proof {
        assert(r@ =~= leaves_spec());
    }
    r
}

/// A leaf's SVG transform: `translate(x y) rotate(angle)`.
pub fn leaf_transform(x: i32, y: i32, angle: i32) -> (r: String)
    ensures
        r@ == "translate("@ + spec_int_text(x as int) + " "@ + spec_int_text(y as int) + ") rotate("@
            + spec_int_text(angle as int) + ")"@,
{
    let mut out = String::from_str("translate(");
    let a = i64_text(x as i64);
    out.append(a.as_str());
    out.append(" ");
    let b = i64_text(y as i64);
    out.append(b.as_str());
    out.append(") rotate(");
    let c = i64_text(angle as i64);
    out.append(c.as_str());
    out.append(")");
    out
}

/// A leaf's growth delay: leaves come in waves of six, 45 ms apart.
pub fn leaf_delay(index: usize) -> (r: usize)
    ensures
        r == (index % 6) * 45,
{
    (index % 6) * 45
}

/// The tree's caption.
pub fn tree_caption(grown: bool) -> (r: &'static str)
    ensures
        grown ==> r@ == "一片新叶，一段被留下的记忆"@,
        !grown ==> r@ == "轻触这棵树，让记忆生长"@,
{
    if grown {
        "一片新叶，一段被留下的记忆"
    } else {
        "轻触这棵树，让记忆生长"
    }
}

/// Touching the tree toggles it.
pub fn tree_touched(grown: bool) -> (r: bool)
    ensures
        r == !grown,
{
    !grown
}

/// The accessible name of an outbound card.
pub fn link_label(name: &str, description: &str) -> (r: String)
    ensures
        r@ == name@ + "："@ + description@ + "（在新标签页打开）"@,
{
    let mut out = String::from_str(name);
    out.append("：");
    out.append(description);
    out.append("（在新标签页打开）");
    out
}

/// The outbound cards: (address, name, description).
pub fn outbound_links() -> (r: Vec<(&'static str, &'static str, &'static str)>)
    ensures
        r@.len() == 1,
        r@[0].0@ == "/doc/yggdrasil/index.html"@,
        r@[0].1@ == "站点文档"@,
        r@[0].2@ == "这棵树是如何长成的"@,
{
    vec![("/doc/yggdrasil/index.html", "站点文档", "这棵树是如何长成的")]
}

} // verus!
