use vstd::prelude::*;

verus! {

/// Visible pixels per scanline.
pub const FRAME_WIDTH: u16 = 160;
/// Colour clocks of horizontal blank before the first visible pixel.
pub const HORIZONTAL_BLANK: u16 = 68;

/// Bit `k` of `v`.
pub open spec fn bit_of(v: u8, k: u8) -> bool {
    (v >> k) & 1 == 1
}

/// `(number, size, gap)` of the copies selected by the low three bits of
/// NUSIZx.
pub open spec fn nusize_spec(nusiz: u8) -> (u8, u8, u8) {
    let v = nusiz % 8;
    if v == 0 {
        (1, 1, 0)
    } else if v == 1 {
        (2, 1, 2)
    } else if v == 2 {
        (2, 1, 4)
    } else if v == 3 {
        (3, 1, 2)
    } else if v == 4 {
        (2, 1, 8)
    } else if v == 5 {
        (1, 2, 0)
    } else if v == 6 {
        (3, 1, 4)
    } else {
        (1, 4, 0)
    }
}

pub fn nusize(nusiz: u8) -> (r: (u8, u8, u8))
    ensures
        r == nusize_spec(nusiz),
{
    match nusiz % 8 {
        0 => (1, 1, 0),
        1 => (2, 1, 2),
        2 => (2, 1, 4),
        3 => (3, 1, 2),
        4 => (2, 1, 8),
        5 => (1, 2, 0),
        6 => (3, 1, 4),
        _ => (1, 4, 0),
    }
}

/// Width in pixels selected by bits 4 and 5 (ball and missiles).
pub open spec fn stretch_width(v: u8) -> u16 {
    let k = (v / 16) % 4;
    if k == 0 {
        1
    } else if k == 1 {
        2
    } else if k == 2 {
        4
    } else {
        8
    }
}

fn stretch(v: u8) -> (r: u16)
    ensures
        r == stretch_width(v),
{
    match (v / 16) % 4 {
        0 => 1,
        1 => 2,
        2 => 4,
        _ => 8,
    }
}

/// First visible pixel of an object reset at colour clock `res` of the line:
/// a reset during horizontal blank places it at the left edge.
pub open spec fn start_pixel(res: u8) -> u16 {
    if res < 68 {
        0
    } else {
        ((res - 68) % 160) as u16
    }
}

fn start_of(res: u8) -> (r: u16)
    ensures
        r == start_pixel(res),
        r < 160,
{
    if res < 68 {
        0
    } else {
        (res as u16 - 68) % 160
    }
}

/// Distance from `start` to `x` going right, wrapping round the line.
pub open spec fn dist(x: int, start: int) -> int {
    (x - start + 320) % 160
}

// ---------------------------------------------------------------------------
// Playfield
// ---------------------------------------------------------------------------

/// One of the 20 four-pixel cells of the left half: PF0 bits 4..7, then PF1
/// bits 7..0, then PF2 bits 0..7.
pub open spec fn pf_cell(pf0: u8, pf1: u8, pf2: u8, cell: int) -> bool {
    if cell < 4 {
        bit_of(pf0, (4 + cell) as u8)
    } else if cell < 12 {
        bit_of(pf1, (11 - cell) as u8)
    } else {
        bit_of(pf2, (cell - 12) as u8)
    }
}

/// Playfield at pixel `x`: the right half repeats the left one, or mirrors
/// it when CTRLPF bit 0 is set.
pub open spec fn playfield_pixel(pf0: u8, pf1: u8, pf2: u8, ctrlpf: u8, x: int) -> bool {
    if x < 80 {
        pf_cell(pf0, pf1, pf2, x / 4)
    } else if ctrlpf & 1 != 0 {
        pf_cell(pf0, pf1, pf2, (159 - x) / 4)
    } else {
        pf_cell(pf0, pf1, pf2, (x - 80) / 4)
    }
}

pub struct PlayfieldState {
    pub pf0: u8,
    pub pf1: u8,
    pub pf2: u8,
    pub ctrlpf: u8,
    pub pf_lookup: Vec<bool>,
}

impl PlayfieldState {
    pub open spec fn wf(&self) -> bool {
        &&& self.pf_lookup@.len() == 160
        &&& forall|x: int|
            0 <= x < 160 ==> self.pf_lookup@[x] == playfield_pixel(
                self.pf0,
                self.pf1,
                self.pf2,
                self.ctrlpf,
                x,
            )
    }

    pub fn new() -> (r: Self)
        ensures
            r.wf(),
            r.pf0 == 0 && r.pf1 == 0 && r.pf2 == 0 && r.ctrlpf == 0,
    {
        let mut instance = PlayfieldState { pf0: 0, pf1: 0, pf2: 0, ctrlpf: 0, pf_lookup: Vec::new() };
        instance.update();
        instance
    }

    fn cell(&self, cell: u16) -> (r: bool)
        requires
            cell < 20,
        ensures
            r == pf_cell(self.pf0, self.pf1, self.pf2, cell as int),
    {
        if cell < 4 {
            (self.pf0 >> (4 + cell as u8)) & 1 == 1
        } else if cell < 12 {
            (self.pf1 >> (11 - cell as u8)) & 1 == 1
        } else {
            (self.pf2 >> (cell as u8 - 12)) & 1 == 1
        }
    }

    /// Recomputes the 160-pixel scan from the registers.
    pub fn update(&mut self)
        ensures
            final(self).wf(),
            final(self).pf0 == old(self).pf0 && final(self).pf1 == old(self).pf1,
            final(self).pf2 == old(self).pf2 && final(self).ctrlpf == old(self).ctrlpf,
    {
        let mut field: Vec<bool> = Vec::new();
        let mut x: u16 = 0;
        while x < 160
            invariant
                x <= 160,
                field@.len() == x,
                forall|i: int|
                    0 <= i < x ==> field@[i] == playfield_pixel(
                        self.pf0,
                        self.pf1,
                        self.pf2,
                        self.ctrlpf,
                        i,
                    ),
            decreases 160 - x,
        {
            let v = if x < 80 {
                self.cell(x / 4)
            } else if self.ctrlpf & 1 != 0 {
                self.cell((159 - x) / 4)
            } else {
                self.cell((x - 80) / 4)
            };
            field.push(v);
            x += 1;
        }
        self.pf_lookup = field;
    }

    pub fn get_playfield_scan(&self) -> (r: &Vec<bool>)
        ensures
            r@ == self.pf_lookup@,
    {
        &self.pf_lookup
    }

    pub fn update_pf0(&mut self, data: u8)
        ensures
            final(self).wf(),
            final(self).pf0 == data && final(self).pf1 == old(self).pf1,
            final(self).pf2 == old(self).pf2 && final(self).ctrlpf == old(self).ctrlpf,
    {
        self.pf0 = data;
        self.update();
    }

    pub fn update_pf1(&mut self, data: u8)
        ensures
            final(self).wf(),
            final(self).pf0 == old(self).pf0 && final(self).pf1 == data,
            final(self).pf2 == old(self).pf2 && final(self).ctrlpf == old(self).ctrlpf,
    {
        self.pf1 = data;
        self.update();
    }

    pub fn update_pf2(&mut self, data: u8)
        ensures
            final(self).wf(),
            final(self).pf0 == old(self).pf0 && final(self).pf1 == old(self).pf1,
            final(self).pf2 == data && final(self).ctrlpf == old(self).ctrlpf,
    {
        self.pf2 = data;
        self.update();
    }

    pub fn update_ctrlpf(&mut self, data: u8)
        ensures
            final(self).wf(),
            final(self).pf0 == old(self).pf0 && final(self).pf1 == old(self).pf1,
            final(self).pf2 == old(self).pf2 && final(self).ctrlpf == data,
    {
        self.ctrlpf = data;
        self.update();
    }
}

// ---------------------------------------------------------------------------
// Ball
// ---------------------------------------------------------------------------

pub open spec fn ball_enabled(enabl: u8, enabl_old: u8, vdelbl: u8) -> bool {
    if vdelbl & 1 == 0 {
        enabl & 2 != 0
    } else {
        enabl_old & 2 != 0
    }
}

/// Ball at pixel `x`: `width` pixels from its start, when enabled.
pub open spec fn ball_pixel(enabl: u8, enabl_old: u8, vdelbl: u8, resbl: u8, ctrlpf: u8, x: int) -> bool {
    ball_enabled(enabl, enabl_old, vdelbl) && dist(x, start_pixel(resbl) as int) < stretch_width(ctrlpf)
}

pub struct BallState {
    pub enabl: u8,
    pub enabl_old: u8,
    pub vdelbl: u8,
    pub resbl: u8,
    pub ctrlpf: u8,
    pub x_min: u16,
    pub x_max: u16,
    pub enabled: bool,
    pub scan_line: Vec<bool>,
}

impl BallState {
    pub open spec fn wf(&self) -> bool {
        &&& self.scan_line@.len() == 160
        &&& self.enabled == ball_enabled(self.enabl, self.enabl_old, self.vdelbl)
        &&& self.x_min == start_pixel(self.resbl)
        &&& self.x_max == self.x_min + stretch_width(self.ctrlpf)
        &&& forall|x: int|
            0 <= x < 160 ==> self.scan_line@[x] == ball_pixel(
                self.enabl,
                self.enabl_old,
                self.vdelbl,
                self.resbl,
                self.ctrlpf,
                x,
            )
    }

    /// Same registers as `o`, derived state recomputed.
    pub open spec fn same_regs(&self, o: BallState) -> bool {
        &&& self.enabl == o.enabl && self.enabl_old == o.enabl_old && self.vdelbl == o.vdelbl
        &&& self.resbl == o.resbl && self.ctrlpf == o.ctrlpf
        &&& self.wf()
    }

    pub fn new() -> (r: Self)
        ensures
            r.wf(),
            r.enabl == 0 && r.enabl_old == 0 && r.vdelbl == 0 && r.resbl == 0 && r.ctrlpf == 0,
    {
        let mut b = BallState {
            enabl: 0,
            enabl_old: 0,
            vdelbl: 0,
            resbl: 0,
            ctrlpf: 0,
            x_min: 0,
            x_max: 0,
            enabled: false,
            scan_line: Vec::new(),
        };
        b.update();
        b
    }

    pub fn update(&mut self)
        ensures
            final(self).same_regs(*old(self)),
    {
        self.enabled = if self.vdelbl & 1 == 0 {
            self.enabl & 2 != 0
        } else {
            self.enabl_old & 2 != 0
        };
        let width = stretch(self.ctrlpf);
        self.x_min = start_of(self.resbl);
        self.x_max = self.x_min + width;
        self.calc_ball_scan();
    }

    fn calc_ball_scan(&mut self)
        requires
            old(self).enabled == ball_enabled(old(self).enabl, old(self).enabl_old, old(self).vdelbl),
            old(self).x_min == start_pixel(old(self).resbl),
            old(self).x_max == old(self).x_min + stretch_width(old(self).ctrlpf),
        ensures
            final(self).wf(),
            final(self).enabl == old(self).enabl && final(self).enabl_old == old(self).enabl_old,
            final(self).vdelbl == old(self).vdelbl && final(self).resbl == old(self).resbl,
            final(self).ctrlpf == old(self).ctrlpf,
    {
        let mut scan: Vec<bool> = Vec::new();
        let width = self.x_max - self.x_min;
        let mut x: u16 = 0;
        while x < 160
            invariant
                x <= 160,
                scan@.len() == x,
                width == stretch_width(self.ctrlpf),
                self.x_min < 160,
                forall|i: int|
                    0 <= i < x ==> scan@[i] == ball_pixel(
                        self.enabl,
                        self.enabl_old,
                        self.vdelbl,
                        self.resbl,
                        self.ctrlpf,
                        i,
                    ),
                self.enabled == ball_enabled(self.enabl, self.enabl_old, self.vdelbl),
                self.x_min == start_pixel(self.resbl),
            decreases 160 - x,
        {
            scan.push(self.enabled && (x + 320 - self.x_min) % 160 < width);
            x += 1;
        }
        self.scan_line = scan;
    }

    pub fn update_resbl(&mut self, data: u8)
        ensures
            final(self).same_regs(BallState { resbl: data, ..*old(self) }),
    {
        self.resbl = data;
        self.update();
    }

    pub fn update_enabl_old(&mut self, data: u8)
        ensures
            final(self).same_regs(BallState { enabl_old: data, ..*old(self) }),
    {
        self.enabl_old = data;
        self.update();
    }

    pub fn update_enabl(&mut self, data: u8)
        ensures
            final(self).same_regs(BallState { enabl: data, ..*old(self) }),
    {
        self.enabl = data;
        self.update();
    }

    pub fn update_vdelbl(&mut self, data: u8)
        ensures
            final(self).same_regs(BallState { vdelbl: data, ..*old(self) }),
    {
        self.vdelbl = data;
        self.update();
    }

    pub fn update_ctrlpf(&mut self, data: u8)
        ensures
            final(self).same_regs(BallState { ctrlpf: data, ..*old(self) }),
    {
        self.ctrlpf = data;
        self.update();
    }

    pub fn get_ball_scan(&self) -> (r: &Vec<bool>)
        ensures
            r@ == self.scan_line@,
    {
        &self.scan_line
    }
}

// ---------------------------------------------------------------------------
// Missiles
// ---------------------------------------------------------------------------

/// Copy `n` of a missile covers pixel `x`.
pub open spec fn missile_copy(start: u16, n: int, gap: u8, width: u16, x: int) -> bool {
    dist(x, start + n * gap * 8) < width
}

/// Missile at pixel `x`: up to three copies `gap * 8` apart, each `width`
/// pixels wide (missiles are not scaled by the size field).
pub open spec fn missile_pixel(nusiz: u8, enam: u8, resm: u8, x: int) -> bool {
    let (number, size, gap) = nusize_spec(nusiz);
    let start = start_pixel(resm);
    let width = stretch_width(nusiz);
    enam & 2 != 0 && (missile_copy(start, 0, gap, width, x) || (number >= 2 && missile_copy(
        start,
        1,
        gap,
        width,
        x,
    )) || (number >= 3 && missile_copy(start, 2, gap, width, x)))
}

pub struct MissileState {
    pub nusiz: u8,
    pub enam: u8,
    pub resm: u8,
    pub number: u8,
    pub gap: u8,
    pub scan_line: Vec<bool>,
}

impl MissileState {
    pub open spec fn wf(&self) -> bool {
        &&& self.scan_line@.len() == 160
        &&& self.resm >= 68
        &&& self.number == nusize_spec(self.nusiz).0
        &&& self.gap == nusize_spec(self.nusiz).2
        &&& forall|x: int|
            0 <= x < 160 ==> self.scan_line@[x] == missile_pixel(self.nusiz, self.enam, self.resm, x)
    }

    /// Registers `nusiz`, `enam` and `resm` (a reset during horizontal blank
    /// counts as one at its end), derived state recomputed.
    pub open spec fn settled(&self, nusiz: u8, enam: u8, resm: u8) -> bool {
        &&& self.nusiz == nusiz && self.enam == enam
        &&& self.resm == if resm < 68 { 68 } else { resm }
        &&& self.wf()
    }

    pub fn new() -> (r: Self)
        ensures
            r.settled(0, 0, 0),
    {
        let mut m = MissileState { nusiz: 0, enam: 0, resm: 0, number: 0, gap: 0, scan_line: Vec::new() };
        m.update();
        m
    }

    pub fn update(&mut self)
        ensures
            final(self).settled(old(self).nusiz, old(self).enam, old(self).resm),
    {
        let (number, _size, gap) = nusize(self.nusiz);
        self.number = number;
        self.gap = gap;
        if self.resm < 68 {
            self.resm = 68;
        }
        self.calc_missile_scan();
    }

    fn copy_at(start: u16, n: u16, gap: u8, width: u16, x: u16) -> (r: bool)
        requires
            start < 160,
            n <= 2,
            gap <= 8,
            x < 160,
        ensures
            r == missile_copy(start, n as int, gap, width, x as int),
    {
        assert(n * gap * 8 <= 128) by (nonlinear_arith)
            requires n <= 2, gap <= 8;
        let off = start + n * gap as u16 * 8;
        (x + 320 - off) % 160 < width
    }

    fn calc_missile_scan(&mut self)
        requires
            old(self).resm >= 68,
            old(self).number == nusize_spec(old(self).nusiz).0,
            old(self).gap == nusize_spec(old(self).nusiz).2,
        ensures
            final(self).wf(),
            final(self).nusiz == old(self).nusiz && final(self).enam == old(self).enam,
            final(self).resm == old(self).resm,
    {
        let mut scan: Vec<bool> = Vec::new();
        let start = start_of(self.resm);
        let width = stretch(self.nusiz);
        let on = self.enam & 2 != 0;
        let mut x: u16 = 0;
        while x < 160
            invariant
                x <= 160,
                scan@.len() == x,
                start == start_pixel(self.resm),
                width == stretch_width(self.nusiz),
                on == (self.enam & 2 != 0),
                self.number == nusize_spec(self.nusiz).0,
                self.gap == nusize_spec(self.nusiz).2,
                forall|i: int| 0 <= i < x ==> scan@[i] == missile_pixel(self.nusiz, self.enam, self.resm, i),
            decreases 160 - x,
        {
            let v = on && (MissileState::copy_at(start, 0, self.gap, width, x) || (self.number >= 2
                && MissileState::copy_at(start, 1, self.gap, width, x)) || (self.number >= 3
                && MissileState::copy_at(start, 2, self.gap, width, x)));
            scan.push(v);
            x += 1;
        }
        self.scan_line = scan;
    }

    pub fn update_nusiz(&mut self, data: u8)
        ensures
            final(self).settled(data, old(self).enam, old(self).resm),
    {
        self.nusiz = data;
        self.update();
    }

    pub fn update_resm(&mut self, data: u8)
        ensures
            final(self).settled(old(self).nusiz, old(self).enam, data),
    {
        self.resm = data;
        self.update();
    }

    pub fn update_enam(&mut self, data: u8)
        ensures
            final(self).settled(old(self).nusiz, data, old(self).resm),
    {
        self.enam = data;
        self.update();
    }

    pub fn get_missile_scan(&self) -> (r: &Vec<bool>)
        ensures
            r@ == self.scan_line@,
    {
        &self.scan_line
    }
}

// ---------------------------------------------------------------------------
// Players
// ---------------------------------------------------------------------------

/// Copy `n` of the player graphic at offset `j` from the player's start:
/// each of the 8 bits is `size` pixels wide, most significant bit first
/// unless `reflect` is 0.
pub open spec fn player_copy(n: int, size: u8, gap: u8, reflect: u8, g: u8, j: int) -> bool {
    let off = n * gap * 8;
    let k = (j - off) / size as int;
    off <= j < off + 8 * size && bit_of(g, if reflect != 0 { (7 - k) as u8 } else { k as u8 })
}

/// Player graphic (unrotated) at offset `j`.
pub open spec fn player_base(number: u8, size: u8, gap: u8, reflect: u8, g: u8, j: int) -> bool {
    player_copy(0, size, gap, reflect, g, j) || (number >= 2 && player_copy(1, size, gap, reflect, g, j))
        || (number >= 3 && player_copy(2, size, gap, reflect, g, j))
}

/// Graphic shown: the delayed copy when VDELPx bit 0 is set.
pub open spec fn player_grp(p: u8, p_old: u8, vdelp: u8) -> u8 {
    if vdelp & 1 == 0 {
        p
    } else {
        p_old
    }
}

/// Start pixel of a player: its reset position plus half its pixel size.
pub open spec fn player_start(resp: u8, size: u8) -> u16 {
    ((start_pixel(resp) + size / 2) % 160) as u16
}

pub struct PlayerState {
    pub nusiz: u8,
    pub p: u8,
    pub p_old: u8,
    pub refp: u8,
    pub resp: u8,
    pub vdelp: u8,
    pub reflect: u8,
    pub grp: u8,
    pub number: u8,
    pub size: u8,
    pub gap: u8,
    pub pos_start: u16,
    pub scan_line: Vec<bool>,
}

impl PlayerState {
    pub open spec fn wf(&self) -> bool {
        &&& self.scan_line@.len() == 160
        &&& self.resp >= 68
        &&& (self.number, self.size, self.gap) == nusize_spec(self.nusiz)
        &&& self.grp == player_grp(self.p, self.p_old, self.vdelp)
        &&& self.reflect == if self.refp & 8 == 0 { 1u8 } else { 0u8 }
        &&& self.pos_start == player_start(self.resp, self.size)
        &&& forall|x: int|
            0 <= x < 160 ==> self.scan_line@[x] == player_base(
                self.number,
                self.size,
                self.gap,
                self.reflect,
                self.grp,
                dist(x, self.pos_start as int),
            )
    }

    /// Registers as given (a reset during horizontal blank counts as one at
    /// its end), derived state recomputed.
    pub open spec fn settled(&self, nusiz: u8, p: u8, p_old: u8, refp: u8, resp: u8, vdelp: u8) -> bool {
        &&& self.nusiz == nusiz && self.p == p && self.p_old == p_old
        &&& self.refp == refp && self.vdelp == vdelp
        &&& self.resp == if resp < 68 { 68 } else { resp }
        &&& self.wf()
    }

    pub open spec fn settled_from(&self, o: PlayerState) -> bool {
        self.settled(o.nusiz, o.p, o.p_old, o.refp, o.resp, o.vdelp)
    }

    pub fn new() -> (r: Self)
        ensures
            r.settled(0, 0, 0, 0, 0, 0),
    {
        let mut pl = PlayerState {
            nusiz: 0,
            p: 0,
            p_old: 0,
            refp: 0,
            resp: 0,
            vdelp: 0,
            reflect: 0,
            grp: 0,
            number: 0,
            size: 0,
            gap: 0,
            pos_start: 0,
            scan_line: Vec::new(),
        };
        pl.update();
        pl
    }

    pub fn update_nusiz(&mut self, data: u8)
        ensures
            final(self).settled_from(PlayerState { nusiz: data, ..*old(self) }),
    {
        self.nusiz = data;
        self.update();
    }

    pub fn update_resp(&mut self, data: u8)
        ensures
            final(self).settled_from(PlayerState { resp: data, ..*old(self) }),
    {
        self.resp = data;
        self.update();
    }

    pub fn update_refp(&mut self, data: u8)
        ensures
            final(self).settled_from(PlayerState { refp: data, ..*old(self) }),
    {
        self.refp = data;
        self.update();
    }

    pub fn update_p(&mut self, data: u8)
        ensures
            final(self).settled_from(PlayerState { p: data, ..*old(self) }),
    {
        self.p = data;
        self.update();
    }

    pub fn update_p_old(&mut self, data: u8)
        ensures
            final(self).settled_from(PlayerState { p_old: data, ..*old(self) }),
    {
        self.p_old = data;
        self.update();
    }

    pub fn update_vdelp(&mut self, data: u8)
        ensures
            final(self).settled_from(PlayerState { vdelp: data, ..*old(self) }),
    {
        self.vdelp = data;
        self.update();
    }

    fn copy_at(n: u16, size: u8, gap: u8, reflect: u8, g: u8, j: u16) -> (r: bool)
        requires
            n <= 2,
            gap <= 8,
            1 <= size <= 4,
            j < 160,
        ensures
            r == player_copy(n as int, size, gap, reflect, g, j as int),
    {
        assert(n * gap * 8 <= 128) by (nonlinear_arith)
            requires n <= 2, gap <= 8;
        let off = n * gap as u16 * 8;
        if off <= j && j < off + 8 * size as u16 {
            let k = (j - off) / size as u16;
            assert(k < 8) by (nonlinear_arith)
                requires k == (j - off) / size as int, j - off < 8 * size, size >= 1;
            let b: u8 = if reflect != 0 { 7 - k as u8 } else { k as u8 };
            (g >> b) & 1 == 1
        } else {
            false
        }
    }

    /// The scan of the graphic, `number` copies of it `gap * 8` pixels
    /// apart, before it is rotated to the player's position.
    pub fn calculate_player_scan(number: u8, size: u8, gap: u8, reflect: u8, g: u8) -> (r: Vec<bool>)
        requires
            1 <= size <= 4,
            gap <= 8,
        ensures
            r@.len() == 160,
            forall|j: int| 0 <= j < 160 ==> r@[j] == player_base(number, size, gap, reflect, g, j),
    {
        let mut scan: Vec<bool> = Vec::new();
        let mut j: u16 = 0;
        while j < 160
            invariant
                j <= 160,
                scan@.len() == j,
                1 <= size <= 4,
                gap <= 8,
                forall|i: int| 0 <= i < j ==> scan@[i] == player_base(number, size, gap, reflect, g, i),
            decreases 160 - j,
        {
            let v = PlayerState::copy_at(0, size, gap, reflect, g, j) || (number >= 2
                && PlayerState::copy_at(1, size, gap, reflect, g, j)) || (number >= 3
                && PlayerState::copy_at(2, size, gap, reflect, g, j));
            scan.push(v);
            j += 1;
        }
        scan
    }

    pub fn update(&mut self)
        ensures
            final(self).settled_from(*old(self)),
    {
        self.grp = if self.vdelp & 1 == 0 {
            self.p
        } else {
            self.p_old
        };
        let (number, size, gap) = nusize(self.nusiz);
        self.number = number;
        self.size = size;
        self.gap = gap;
        if self.resp < 68 {
            self.resp = 68;
        }
        self.reflect = if self.refp & 8 == 0 {
            1
        } else {
            0
        };
        self.pos_start = (start_of(self.resp) + size as u16 / 2) % 160;
        self.calc_player_scan();
    }

    fn calc_player_scan(&mut self)
        requires
            (old(self).number, old(self).size, old(self).gap) == nusize_spec(old(self).nusiz),
            old(self).pos_start < 160,
        ensures
            final(self).scan_line@.len() == 160,
            forall|x: int|
                0 <= x < 160 ==> final(self).scan_line@[x] == player_base(
                    old(self).number,
                    old(self).size,
                    old(self).gap,
                    old(self).reflect,
                    old(self).grp,
                    dist(x, old(self).pos_start as int),
                ),
            *final(self) == (PlayerState { scan_line: final(self).scan_line, ..*old(self) }),
    {
        let scan = PlayerState::calculate_player_scan(self.number, self.size, self.gap, self.reflect, self.grp);
        let mut rotated: Vec<bool> = Vec::new();
        let mut x: u16 = 0;
        while x < 160
            invariant
                x <= 160,
                rotated@.len() == x,
                scan@.len() == 160,
                self.pos_start < 160,
                forall|i: int| 0 <= i < x ==> rotated@[i] == scan@[dist(i, self.pos_start as int)],
            decreases 160 - x,
        {
            rotated.push(scan[((x + 320 - self.pos_start) % 160) as usize]);
            x += 1;
        }
        self.scan_line = rotated;
    }

    pub fn get_player_scan(&self) -> (r: &Vec<bool>)
        ensures
            r@ == self.scan_line@,
    {
        &self.scan_line
    }
}

// ---------------------------------------------------------------------------
// Collision latches
// ---------------------------------------------------------------------------

/// `v` with bit 7 set when `hi` holds and bit 6 when `lo` holds.
pub open spec fn latch_spec(v: u8, hi: bool, lo: bool) -> u8 {
    let a = if hi { v | 0x80 } else { v };
    if lo { a | 0x40 } else { a }
}

fn latch(v: u8, hi: bool, lo: bool) -> (r: u8)
    ensures
        r == latch_spec(v, hi, lo),
{
    let a = if hi { v | 0x80 } else { v };
    if lo { a | 0x40 } else { a }
}

#[derive(Clone, Copy, PartialEq, Eq, Structural)]
pub struct CollisionState {
    pub cxmp0: u8,
    pub cxmp1: u8,
    pub cxpfb0: u8,
    pub cxpfb1: u8,
    pub cxmfb0: u8,
    pub cxmfb1: u8,
    pub cxblpf: u8,
    pub cxppmm: u8,
}

/// The latches after objects `p0 .. pf` have been seen on one pixel.
pub open spec fn collide(c: CollisionState, p0: bool, p1: bool, m0: bool, m1: bool, bl: bool, pf: bool) -> CollisionState {
    CollisionState {
        cxmp0: latch_spec(c.cxmp0, m0 && p1, m0 && p0),
        cxmp1: latch_spec(c.cxmp1, m1 && p0, m1 && p1),
        cxpfb0: latch_spec(c.cxpfb0, p0 && pf, p0 && bl),
        cxpfb1: latch_spec(c.cxpfb1, p1 && pf, p1 && bl),
        cxmfb0: latch_spec(c.cxmfb0, m0 && pf, m0 && bl),
        cxmfb1: latch_spec(c.cxmfb1, m1 && pf, m1 && bl),
        cxblpf: latch_spec(c.cxblpf, bl && pf, false),
        cxppmm: latch_spec(c.cxppmm, p0 && p1, m0 && m1),
    }
}

pub open spec fn cleared() -> CollisionState {
    CollisionState { cxmp0: 0, cxmp1: 0, cxpfb0: 0, cxpfb1: 0, cxmfb0: 0, cxmfb1: 0, cxblpf: 0, cxppmm: 0 }
}

impl CollisionState {
    pub fn new() -> (r: Self)
        ensures
            r == cleared(),
    {
        CollisionState { cxmp0: 0, cxmp1: 0, cxpfb0: 0, cxpfb1: 0, cxmfb0: 0, cxmfb1: 0, cxblpf: 0, cxppmm: 0 }
    }

    pub fn clear(&mut self)
        ensures
            *final(self) == cleared(),
    {
        *self = CollisionState::new();
    }

    /// Latches each pair of the given objects that overlap on one pixel.
    pub fn update_collisions(&mut self, p0: bool, p1: bool, m0: bool, m1: bool, bl: bool, pf: bool)
        ensures
            *final(self) == collide(*old(self), p0, p1, m0, m1, bl, pf),
    {
        self.cxmp0 = latch(self.cxmp0, m0 && p1, m0 && p0);
        self.cxmp1 = latch(self.cxmp1, m1 && p0, m1 && p1);
        self.cxpfb0 = latch(self.cxpfb0, p0 && pf, p0 && bl);
        self.cxpfb1 = latch(self.cxpfb1, p1 && pf, p1 && bl);
        self.cxmfb0 = latch(self.cxmfb0, m0 && pf, m0 && bl);
        self.cxmfb1 = latch(self.cxmfb1, m1 && pf, m1 && bl);
        self.cxblpf = latch(self.cxblpf, bl && pf, false);
        self.cxppmm = latch(self.cxppmm, p0 && p1, m0 && m1);
    }

    pub fn get_cxmp_0(&self) -> (r: u8)
        ensures
            r == self.cxmp0,
    {
        self.cxmp0
    }

    pub fn get_cxmp_1(&self) -> (r: u8)
        ensures
            r == self.cxmp1,
    {
        self.cxmp1
    }

    pub fn get_cxpfb_0(&self) -> (r: u8)
        ensures
            r == self.cxpfb0,
    {
        self.cxpfb0
    }

    pub fn get_cxpfb_1(&self) -> (r: u8)
        ensures
            r == self.cxpfb1,
    {
        self.cxpfb1
    }

    pub fn get_cxmfb_0(&self) -> (r: u8)
        ensures
            r == self.cxmfb0,
    {
        self.cxmfb0
    }

    pub fn get_cxmfb_1(&self) -> (r: u8)
        ensures
            r == self.cxmfb1,
    {
        self.cxmfb1
    }

    pub fn get_cxblpf(&self) -> (r: u8)
        ensures
            r == self.cxblpf,
    {
        self.cxblpf
    }

    pub fn get_cxppmm(&self) -> (r: u8)
        ensures
            r == self.cxppmm,
    {
        self.cxppmm
    }
}

} // verus!
