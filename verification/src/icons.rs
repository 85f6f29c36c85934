//! Monoline SVG icons of the shell (24×24 viewBox, `stroke-width: 1.8`,
//! round caps/joins, `currentColor` stroke) and their asset paths.
use vstd::prelude::*;

use vstd::string::StringSliceAdditionalSpecFns;

use crate::text::str_eq;
use vstd::utf8::encode_utf8;

verus! {
pub const BOOK_OPEN: &'static str = "<svg xmlns=\"http://www.w3.org/2000/svg\" width=\"24\" height=\"24\" viewBox=\"0 0 24 24\" fill=\"none\" stroke=\"currentColor\" stroke-width=\"1.8\" stroke-linecap=\"round\" stroke-linejoin=\"round\"><path d=\"M2 3h6a4 4 0 0 1 4 4v14a3 3 0 0 0-3-3H2z\"/><path d=\"M22 3h-6a4 4 0 0 0-4 4v14a3 3 0 0 1 3-3h7z\"/></svg>";
pub const SWORDS: &'static str = "<svg xmlns=\"http://www.w3.org/2000/svg\" width=\"24\" height=\"24\" viewBox=\"0 0 24 24\" fill=\"none\" stroke=\"currentColor\" stroke-width=\"1.8\" stroke-linecap=\"round\" stroke-linejoin=\"round\"><polyline points=\"14.5 17.5 3 6 3 3 6 3 17.5 14.5\"/><line x1=\"13\" x2=\"19\" y1=\"19\" y2=\"13\"/><line x1=\"16\" x2=\"20\" y1=\"16\" y2=\"20\"/><line x1=\"19\" x2=\"21\" y1=\"21\" y2=\"19\"/></svg>";
pub const RADIO: &'static str = "<svg xmlns=\"http://www.w3.org/2000/svg\" width=\"24\" height=\"24\" viewBox=\"0 0 24 24\" fill=\"none\" stroke=\"currentColor\" stroke-width=\"1.8\" stroke-linecap=\"round\" stroke-linejoin=\"round\"><circle cx=\"12\" cy=\"12\" r=\"2\"/><path d=\"M16.24 7.76a6 6 0 0 1 0 8.49m-8.48-.01a6 6 0 0 1 0-8.49m11.31-2.82a10 10 0 0 1 0 14.14m-14.14 0a10 10 0 0 1 0-14.14\"/></svg>";
pub const VOLUME_2: &'static str = "<svg xmlns=\"http://www.w3.org/2000/svg\" width=\"24\" height=\"24\" viewBox=\"0 0 24 24\" fill=\"none\" stroke=\"currentColor\" stroke-width=\"1.8\" stroke-linecap=\"round\" stroke-linejoin=\"round\"><polygon points=\"11 5 6 9 2 9 2 15 6 15 11 19 11 5\"/><path d=\"M15.54 8.46a5 5 0 0 1 0 7.07\"/><path d=\"M19.07 4.93a5 5 0 0 1 0 7.07 7.07\"/></svg>";
pub const VOLUME_X: &'static str = "<svg xmlns=\"http://www.w3.org/2000/svg\" width=\"24\" height=\"24\" viewBox=\"0 0 24 24\" fill=\"none\" stroke=\"currentColor\" stroke-width=\"1.8\" stroke-linecap=\"round\" stroke-linejoin=\"round\"><polygon points=\"11 5 6 9 2 9 2 15 6 15 11 19 11 5\"/><line x1=\"22\" x2=\"16\" y1=\"9\" y2=\"15\"/><line x1=\"16\" x2=\"22\" y1=\"15\" y2=\"9\"/></svg>";
pub const SETTINGS: &'static str = "<svg xmlns=\"http://www.w3.org/2000/svg\" width=\"24\" height=\"24\" viewBox=\"0 0 24 24\" fill=\"none\" stroke=\"currentColor\" stroke-width=\"1.8\" stroke-linecap=\"round\" stroke-linejoin=\"round\"><path d=\"M12.22 2h-.44a2 2 0 0 0-2 2v.18a2 2 0 0 1-1 1.73l-.43.25a2 2 0 0 1-2 0l-.15-.08a2 2 0 0 0-2.73.73l-.22.38a2 2 0 0 0 .73 2.73l.15.1a2 2 0 0 1 1 1.72v.51a2 2 0 0 1-1 1.74l-.15.09a2 2 0 0 0-.73 2.73l.22.38a2 2 0 0 0 2.73.73l.15-.08a2 2 0 0 1 2 0l.43.25a2 2 0 0 1 1 1.73V20a2 2 0 0 0 2 2h.44a2 2 0 0 0 2-2v-.18a2 2 0 0 0-2-2v-.18a2 2 0 0 0-1-1.73l-.43-.25a2 2 0 0 1-2 0l.15-.08a2 2 0 0 0 2.73-.73l.22-.38a2 2 0 0 0-.73-2.73l-.15-.1a2 2 0 0 0-1-1.72v-.51a2 2 0 0 1 1-1.74l.15-.09a2 2 0 0 0 .73-2.73l-.22-.38a2 2 0 0 0-2.73-.73l-.15.08a2 2 0 0 1-2 0l-.43-.25a2 2 0 0 1-1-1.73V4a2 2 0 0 0-2-2z\"/><circle cx=\"12\" cy=\"12\" r=\"3\"/></svg>";
pub const PLAY: &'static str = "<svg xmlns=\"http://www.w3.org/2000/svg\" width=\"24\" height=\"24\" viewBox=\"0 0 24 24\" fill=\"none\" stroke=\"currentColor\" stroke-width=\"1.8\" stroke-linecap=\"round\" stroke-linejoin=\"round\"><polygon points=\"6 3 20 12 6 21 6 3\"/></svg>";
pub const PAUSE: &'static str = "<svg xmlns=\"http://www.w3.org/2000/svg\" width=\"24\" height=\"24\" viewBox=\"0 0 24 24\" fill=\"none\" stroke=\"currentColor\" stroke-width=\"1.8\" stroke-linecap=\"round\" stroke-linejoin=\"round\"><rect width=\"4\" height=\"16\" x=\"6\" y=\"4\"/><rect width=\"4\" height=\"16\" x=\"14\" y=\"4\"/></svg>";
pub const CHEVRON_LEFT: &'static str = "<svg xmlns=\"http://www.w3.org/2000/svg\" width=\"24\" height=\"24\" viewBox=\"0 0 24 24\" fill=\"none\" stroke=\"currentColor\" stroke-width=\"1.8\" stroke-linecap=\"round\" stroke-linejoin=\"round\"><path d=\"m15 18-6-6 6-6\"/></svg>";
pub const CHEVRON_RIGHT: &'static str = "<svg xmlns=\"http://www.w3.org/2000/svg\" width=\"24\" height=\"24\" viewBox=\"0 0 24 24\" fill=\"none\" stroke=\"currentColor\" stroke-width=\"1.8\" stroke-linecap=\"round\" stroke-linejoin=\"round\"><path d=\"m9 18 6 6-6-6\"/></svg>";
pub const CHEVRONS_LEFT: &'static str = "<svg xmlns=\"http://www.w3.org/2000/svg\" width=\"24\" height=\"24\" viewBox=\"0 0 24 24\" fill=\"none\" stroke=\"currentColor\" stroke-width=\"1.8\" stroke-linecap=\"round\" stroke-linejoin=\"round\"><path d=\"m11 17-5-5 5-5\"/><path d=\"m18 17-5-5 5-5\"/></svg>";
pub const CHEVRONS_RIGHT: &'static str = "<svg xmlns=\"http://www.w3.org/2000/svg\" width=\"24\" height=\"24\" viewBox=\"0 0 24 24\" fill=\"none\" stroke=\"currentColor\" stroke-width=\"1.8\" stroke-linecap=\"round\" stroke-linejoin=\"round\"><path d=\"m6 17 5 5 5-5\"/><path d=\"m13 17 5 5-5 5\"/></svg>";
pub const TRENDING_UP: &'static str = "<svg xmlns=\"http://www.w3.org/2000/svg\" width=\"24\" height=\"24\" viewBox=\"0 0 24 24\" fill=\"none\" stroke=\"currentColor\" stroke-width=\"1.8\" stroke-linecap=\"round\" stroke-linejoin=\"round\"><polyline points=\"22 7 13.5 15.5 8.5 10.5 2 17\"/><polyline points=\"16 7 22 7 22 13\"/></svg>";
pub const GIT_BRANCH: &'static str = "<svg xmlns=\"http://www.w3.org/2000/svg\" width=\"24\" height=\"24\" viewBox=\"0 0 24 24\" fill=\"none\" stroke=\"currentColor\" stroke-width=\"1.8\" stroke-linecap=\"round\" stroke-linejoin=\"round\"><line x1=\"6\" x2=\"6\" y1=\"3\" y2=\"15\"/><circle cx=\"18\" cy=\"6\" r=\"3\"/><circle cx=\"6\" cy=\"18\" r=\"3\"/><path d=\"M18 9a9 9 0 0 1-9 9\"/></svg>";
pub const TERMINAL: &'static str = "<svg xmlns=\"http://www.w3.org/2000/svg\" width=\"24\" height=\"24\" viewBox=\"0 0 24 24\" fill=\"none\" stroke=\"currentColor\" stroke-width=\"1.8\" stroke-linecap=\"round\" stroke-linejoin=\"round\"><polyline points=\"4 17 10 11 4 5\"/><line x1=\"12\" x2=\"20\" y1=\"19\" y2=\"19\"/></svg>";
pub const CPU: &'static str = "<svg xmlns=\"http://www.w3.org/2000/svg\" width=\"24\" height=\"24\" viewBox=\"0 0 24 24\" fill=\"none\" stroke=\"currentColor\" stroke-width=\"1.8\" stroke-linecap=\"round\" stroke-linejoin=\"round\"><rect width=\"16\" height=\"16\" x=\"4\" y=\"4\" rx=\"2\"/><rect width=\"6\" height=\"6\" x=\"9\" y=\"9\" rx=\"1\"/><path d=\"M15 2v2\"/><path d=\"M15 20v2\"/><path d=\"M2 15h2\"/><path d=\"M2 9h2\"/><path d=\"M20 15h2\"/><path d=\"M20 9h2\"/><path d=\"M9 2v2\"/><path d=\"M9 20v2\"/></svg>";
pub const SPARKLES: &'static str = "<svg xmlns=\"http://www.w3.org/2000/svg\" width=\"24\" height=\"24\" viewBox=\"0 0 24 24\" fill=\"none\" stroke=\"currentColor\" stroke-width=\"1.8\" stroke-linecap=\"round\" stroke-linejoin=\"round\"><path d=\"m12 3-1.912 5.813a2 2 0 0 1-1.275 1.275L3 12l5.813 1.912a2 2 0 0 1 1.275 1.275L12 21l1.912-5.813a2 2 0 0 1 1.275-1.275L21 12l-5.813-1.912a2 2 0 0 1-1.275-1.275L12 3Z\"/></svg>";
pub const SHARE: &'static str = "<svg xmlns=\"http://www.w3.org/2000/svg\" width=\"24\" height=\"24\" viewBox=\"0 0 24 24\" fill=\"none\" stroke=\"currentColor\" stroke-width=\"1.8\" stroke-linecap=\"round\" stroke-linejoin=\"round\"><circle cx=\"18\" cy=\"5\" r=\"3\"/><circle cx=\"6\" cy=\"12\" r=\"3\"/><circle cx=\"18\" cy=\"19\" r=\"3\"/><line x1=\"8.59\" x2=\"15.42\" y1=\"13.51\" y2=\"17.49\"/><line x1=\"15.41\" x2=\"8.59\" y1=\"6.51\" y2=\"10.49\"/></svg>";
pub const INFO: &'static str = "<svg xmlns=\"http://www.w3.org/2000/svg\" width=\"24\" height=\"24\" viewBox=\"0 0 24 24\" fill=\"none\" stroke=\"currentColor\" stroke-width=\"1.8\" stroke-linecap=\"round\" stroke-linejoin=\"round\"><circle cx=\"12\" cy=\"12\" r=\"10\"/><path d=\"M12 16v-4\"/><path d=\"M12 8h.01\"/></svg>";
pub const CHECK: &'static str = "<svg xmlns=\"http://www.w3.org/2000/svg\" width=\"24\" height=\"24\" viewBox=\"0 0 24 24\" fill=\"none\" stroke=\"currentColor\" stroke-width=\"1.8\" stroke-linecap=\"round\" stroke-linejoin=\"round\"><polyline points=\"20 6 9 17 4 12\"/></svg>";
pub const REFRESH_CW: &'static str = "<svg xmlns=\"http://www.w3.org/2000/svg\" width=\"24\" height=\"24\" viewBox=\"0 0 24 24\" fill=\"none\" stroke=\"currentColor\" stroke-width=\"1.8\" stroke-linecap=\"round\" stroke-linejoin=\"round\"><path d=\"M3 12a9 9 0 0 1 9-9 9.75 9.75 0 0 1 6.74 2.74L21 8\"/><path d=\"M21 3v5h-5\"/><path d=\"M21 12a9 9 0 0 1-9 9 9.75 9.75 0 0 1-6.74-2.74L3 16\"/><path d=\"M16 16h5v5\"/></svg>";
pub const UPLOAD: &'static str = "<svg xmlns=\"http://www.w3.org/2000/svg\" width=\"24\" height=\"24\" viewBox=\"0 0 24 24\" fill=\"none\" stroke=\"currentColor\" stroke-width=\"1.8\" stroke-linecap=\"round\" stroke-linejoin=\"round\"><path d=\"M21 15v4a2 2 0 0 1-2 2H5a2 2 0 0 1-2-2v-4\"/><polyline points=\"17 8 12 3 7 8\"/><line x1=\"12\" x2=\"15\" y1=\"3\" y2=\"15\"/></svg>";
pub const PANEL_LEFT: &'static str = "<svg xmlns=\"http://www.w3.org/2000/svg\" width=\"24\" height=\"24\" viewBox=\"0 0 24 24\" fill=\"none\" stroke=\"currentColor\" stroke-width=\"1.8\" stroke-linecap=\"round\" stroke-linejoin=\"round\"><rect width=\"18\" height=\"18\" x=\"3\" y=\"3\" rx=\"2\"/><path d=\"M9 3v18\"/></svg>";
pub const PANEL_RIGHT: &'static str = "<svg xmlns=\"http://www.w3.org/2000/svg\" width=\"24\" height=\"24\" viewBox=\"0 0 24 24\" fill=\"none\" stroke=\"currentColor\" stroke-width=\"1.8\" stroke-linecap=\"round\" stroke-linejoin=\"round\"><rect width=\"18\" height=\"18\" x=\"3\" y=\"3\" rx=\"2\"/><path d=\"M15 3v18\"/></svg>";
pub const PANEL_BOTTOM: &'static str = "<svg xmlns=\"http://www.w3.org/2000/svg\" width=\"24\" height=\"24\" viewBox=\"0 0 24 24\" fill=\"none\" stroke=\"currentColor\" stroke-width=\"1.8\" stroke-linecap=\"round\" stroke-linejoin=\"round\"><rect width=\"18\" height=\"18\" x=\"3\" y=\"3\" rx=\"2\"/><path d=\"M3 15h18\"/></svg>";
pub const ALERT_TRIANGLE: &'static str = "<svg xmlns=\"http://www.w3.org/2000/svg\" width=\"24\" height=\"24\" viewBox=\"0 0 24 24\" fill=\"none\" stroke=\"currentColor\" stroke-width=\"1.8\" stroke-linecap=\"round\" stroke-linejoin=\"round\"><path d=\"m21.73 18-8-14a2 2 0 0 0-3.48 0l-8 14A2 2 0 0 0 4 21h16a2 2 0 0 0 1.73-3Z\"/><path d=\"M12 9v4\"/><path d=\"M12 17h.01\"/></svg>";
pub const LIGHTBULB: &'static str = "<svg xmlns=\"http://www.w3.org/2000/svg\" width=\"24\" height=\"24\" viewBox=\"0 0 24 24\" fill=\"none\" stroke=\"currentColor\" stroke-width=\"1.8\" stroke-linecap=\"round\" stroke-linejoin=\"round\"><path d=\"M15 14c.2-1 .7-1.7 1.5-2.5 1-.9 1.5-2.2 1.5-3.5A6 6 0 0 0 6 8c0 1 .2 2.2 1.5 3.5.7.7 1.3 1.5 1.5 2.5\"/><path d=\"M9 18h6\"/><path d=\"M10 22h4\"/></svg>";
pub const LIBRARY: &'static str = "<svg xmlns=\"http://www.w3.org/2000/svg\" width=\"24\" height=\"24\" viewBox=\"0 0 24 24\" fill=\"none\" stroke=\"currentColor\" stroke-width=\"1.8\" stroke-linecap=\"round\" stroke-linejoin=\"round\"><path d=\"m16 6 4 14\"/><path d=\"M12 6v14\"/><path d=\"M8 8v12\"/><path d=\"M4 4v16\"/></svg>";
pub const FILM: &'static str = "<svg xmlns=\"http://www.w3.org/2000/svg\" width=\"24\" height=\"24\" viewBox=\"0 0 24 24\" fill=\"none\" stroke=\"currentColor\" stroke-width=\"1.8\" stroke-linecap=\"round\" stroke-linejoin=\"round\"><rect width=\"18\" height=\"18\" x=\"3\" y=\"3\" rx=\"2\"/><path d=\"M7 3v18\"/><path d=\"M3 7.5h4\"/><path d=\"M3 12h18\"/><path d=\"M3 16.5h4\"/><path d=\"M17 3v18\"/><path d=\"M17 7.5h4\"/><path d=\"M17 16.5h4\"/></svg>";
pub const GLOBE: &'static str = "<svg xmlns=\"http://www.w3.org/2000/svg\" width=\"24\" height=\"24\" viewBox=\"0 0 24 24\" fill=\"none\" stroke=\"currentColor\" stroke-width=\"1.8\" stroke-linecap=\"round\" stroke-linejoin=\"round\"><circle cx=\"12\" cy=\"12\" r=\"10\"/><path d=\"M12 2a14.5 14.5 0 0 0 0 20 14.5 14.5 0 0 0 0-20\"/><path d=\"M2 12h20\"/></svg>";
pub const DICE: &'static str = "<svg xmlns=\"http://www.w3.org/2000/svg\" width=\"24\" height=\"24\" viewBox=\"0 0 24 24\" fill=\"none\" stroke=\"currentColor\" stroke-width=\"1.8\" stroke-linecap=\"round\" stroke-linejoin=\"round\"><rect width=\"18\" height=\"18\" x=\"3\" y=\"3\" rx=\"2\" ry=\"2\"/><path d=\"M16 8h.01\"/><path d=\"M8 8h.01\"/><path d=\"M8 16h.01\"/><path d=\"M16 16h.01\"/><path d=\"M12 12h.01\"/></svg>";
pub const PUZZLE: &'static str = "<svg xmlns=\"http://www.w3.org/2000/svg\" width=\"24\" height=\"24\" viewBox=\"0 0 24 24\" fill=\"none\" stroke=\"currentColor\" stroke-width=\"1.8\" stroke-linecap=\"round\" stroke-linejoin=\"round\"><path d=\"M19.439 7.85c-.049.322.059.648.289.878l1.568 1.568c.47.47.706 1.087.706 1.704s-.235 1.233-.706 1.704l-1.611 1.611a.98.98 0 0 1-.837.276c-.47-.07-.802-.48-.968-.925a2.501 2.501 0 1 0-3.214 3.214c.446.166.855.497.925.968a.979.979 0 0 1-.276.837l-1.61 1.61a2.404 2.404 0 0 1-1.705.707 2.402 2.402 0 0 1-1.704-.706l-1.568-1.568a1.026 1.026 0 0 0-.877-.29c-.493.074-.84.504-1.02.968a2.5 2.5 0 1 1-3.237-3.237c.464-.18.894-.527.967-1.02a1.026 1.026 0 0 0-.289-.877l-1.568-1.568A2.402 2.402 0 0 1 1.998 12c0-.617.236-1.234.706-1.704L4.23 8.77c.24-.24.581-.353.917-.303.515.077.877.528 1.073 1.01a2.5 2.5 0 1 0 3.259-3.259c-.482-.196-.933-.558-1.01-1.073-.05-.336.062-.676.303-.917l1.525-1.525A2.402 2.402 0 0 1 12 1.998c.617 0 1.234.236 1.704.706l1.568 1.568c.23.23.556.338.877.29.493-.074.84-.504 1.02-.968a2.5 2.5 0 1 1 3.237 3.237c-.464.18-.894.527-.967 1.02Z\"/></svg>";
pub const GRID: &'static str = "<svg xmlns=\"http://www.w3.org/2000/svg\" width=\"24\" height=\"24\" viewBox=\"0 0 24 24\" fill=\"none\" stroke=\"currentColor\" stroke-width=\"1.8\" stroke-linecap=\"round\" stroke-linejoin=\"round\"><rect width=\"18\" height=\"18\" x=\"3\" y=\"3\" rx=\"2\"/><path d=\"M3 9h18\"/><path d=\"M3 15h18\"/><path d=\"M9 3v18\"/><path d=\"M15 3v18\"/></svg>";
pub const MESSAGE: &'static str = "<svg xmlns=\"http://www.w3.org/2000/svg\" width=\"24\" height=\"24\" viewBox=\"0 0 24 24\" fill=\"none\" stroke=\"currentColor\" stroke-width=\"1.8\" stroke-linecap=\"round\" stroke-linejoin=\"round\"><path d=\"M21 15a2 2 0 0 1-2 2H7l-4 4V5a2 2 0 0 1 2-2h14a2 2 0 0 1 2 2z\"/></svg>";
pub const BAR_CHART: &'static str = "<svg xmlns=\"http://www.w3.org/2000/svg\" width=\"24\" height=\"24\" viewBox=\"0 0 24 24\" fill=\"none\" stroke=\"currentColor\" stroke-width=\"1.8\" stroke-linecap=\"round\" stroke-linejoin=\"round\"><line x1=\"12\" x2=\"12\" y1=\"20\" y2=\"10\"/><line x1=\"18\" x2=\"18\" y1=\"20\" y2=\"4\"/><line x1=\"6\" x2=\"6\" y1=\"20\" y2=\"16\"/></svg>";
pub const PLUG: &'static str = "<svg xmlns=\"http://www.w3.org/2000/svg\" width=\"24\" height=\"24\" viewBox=\"0 0 24 24\" fill=\"none\" stroke=\"currentColor\" stroke-width=\"1.8\" stroke-linecap=\"round\" stroke-linejoin=\"round\"><path d=\"M12 22v-5\"/><path d=\"M9 8V2\"/><path d=\"M15 8V2\"/><path d=\"M18 8v5a4 4 0 0 1-4 4h-4a4 4 0 0 1-4-4V8Z\"/></svg>";
pub const STOP: &'static str = "<svg xmlns=\"http://www.w3.org/2000/svg\" width=\"24\" height=\"24\" viewBox=\"0 0 24 24\" fill=\"none\" stroke=\"currentColor\" stroke-width=\"1.8\" stroke-linecap=\"round\" stroke-linejoin=\"round\"><rect width=\"14\" height=\"14\" x=\"5\" y=\"5\" rx=\"2\"/></svg>";
pub const FLAG: &'static str = "<svg xmlns=\"http://www.w3.org/2000/svg\" width=\"24\" height=\"24\" viewBox=\"0 0 24 24\" fill=\"none\" stroke=\"currentColor\" stroke-width=\"1.8\" stroke-linecap=\"round\" stroke-linejoin=\"round\"><path d=\"M4 15s1-1 4-1 5 2 8 2 4-1 4-1V3s-1 1-4 1-5-2-8-2-4 1-4 1z\"/><line x1=\"4\" x2=\"4\" y1=\"22\" y2=\"15\"/></svg>";
pub const EYE: &'static str = "<svg xmlns=\"http://www.w3.org/2000/svg\" width=\"24\" height=\"24\" viewBox=\"0 0 24 24\" fill=\"none\" stroke=\"currentColor\" stroke-width=\"1.8\" stroke-linecap=\"round\" stroke-linejoin=\"round\"><path d=\"M2 12s3-7 10-7 10 7 10 7-3 7-10 7-10-7-10-7Z\"/><circle cx=\"12\" cy=\"12\" r=\"3\"/></svg>";
pub const CLOSE: &'static str = "<svg xmlns=\"http://www.w3.org/2000/svg\" width=\"24\" height=\"24\" viewBox=\"0 0 24 24\" fill=\"none\" stroke=\"currentColor\" stroke-width=\"1.8\" stroke-linecap=\"round\" stroke-linejoin=\"round\"><path d=\"M18 6 6 18\"/><path d=\"m6 6 12 12\"/></svg>";
pub const MAGNIFY: &'static str = "<svg xmlns=\"http://www.w3.org/2000/svg\" width=\"24\" height=\"24\" viewBox=\"0 0 24 24\" fill=\"none\" stroke=\"currentColor\" stroke-width=\"1.8\" stroke-linecap=\"round\" stroke-linejoin=\"round\"><circle cx=\"11\" cy=\"11\" r=\"8\"/><path d=\"m21 21-4.3-4.3\"/></svg>";
pub const SAVE: &'static str = "<svg xmlns=\"http://www.w3.org/2000/svg\" width=\"24\" height=\"24\" viewBox=\"0 0 24 24\" fill=\"none\" stroke=\"currentColor\" stroke-width=\"1.8\" stroke-linecap=\"round\" stroke-linejoin=\"round\"><path d=\"M19 21H5a2 2 0 0 1-2-2V5a2 2 0 0 1 2-2h11l5 5v11a2 2 0 0 1-2 2z\"/><polyline points=\"17 21 17 13 7 13 7 21\"/><polyline points=\"7 3 7 8 15 8\"/></svg>";
pub const IMAGE: &'static str = "<svg xmlns=\"http://www.w3.org/2000/svg\" width=\"24\" height=\"24\" viewBox=\"0 0 24 24\" fill=\"none\" stroke=\"currentColor\" stroke-width=\"1.8\" stroke-linecap=\"round\" stroke-linejoin=\"round\"><rect width=\"18\" height=\"18\" x=\"3\" y=\"3\" rx=\"2\" ry=\"2\"/><circle cx=\"9\" cy=\"9\" r=\"2\"/><path d=\"m21 15-3.086-3.086a2 2 0 0 0-2.828 0L6 21\"/></svg>";
pub const TARGET: &'static str = "<svg xmlns=\"http://www.w3.org/2000/svg\" width=\"24\" height=\"24\" viewBox=\"0 0 24 24\" fill=\"none\" stroke=\"currentColor\" stroke-width=\"1.8\" stroke-linecap=\"round\" stroke-linejoin=\"round\"><circle cx=\"12\" cy=\"12\" r=\"10\"/><circle cx=\"12\" cy=\"12\" r=\"6\"/><circle cx=\"12\" cy=\"12\" r=\"2\"/></svg>";
pub const PIN: &'static str = "<svg xmlns=\"http://www.w3.org/2000/svg\" width=\"24\" height=\"24\" viewBox=\"0 0 24 24\" fill=\"none\" stroke=\"currentColor\" stroke-width=\"1.8\" stroke-linecap=\"round\" stroke-linejoin=\"round\"><path d=\"M12 17v5\"/><path d=\"M9 10.76a2 2 0 0 1-1.11 1.79l-1.78.9A2 2 0 0 0 5 15.24V16a1 1 0 0 0 1 1h12a1 1 0 0 0 1-1v-.76a2 2 0 0 0-1.11-1.79l-1.78-.9A2 2 0 0 1 15 10.76V6h1a2 2 0 0 0 0-4H8a2 2 0 0 0 0 4h1z\"/></svg>";
pub const MENU: &'static str = "<svg xmlns=\"http://www.w3.org/2000/svg\" width=\"24\" height=\"24\" viewBox=\"0 0 24 24\" fill=\"none\" stroke=\"currentColor\" stroke-width=\"1.8\" stroke-linecap=\"round\" stroke-linejoin=\"round\"><line x1=\"4\" x2=\"20\" y1=\"6\" y2=\"6\"/><line x1=\"4\" x2=\"20\" y1=\"12\" y2=\"12\"/><line x1=\"4\" x2=\"20\" y1=\"18\" y2=\"18\"/></svg>";

/// Semantic icon names used across the shell, decoupled from asset paths.
#[derive(Clone, Copy, Debug, Eq, PartialEq, Structural)]
pub enum ShellIcon {
    BookOpen,
    Swords,
    Radio,
    Volume2,
    VolumeX,
    Settings,
    Play,
    Pause,
    ChevronLeft,
    ChevronRight,
    ChevronsLeft,
    ChevronsRight,
    TrendingUp,
    GitBranch,
    Terminal,
    Cpu,
    Sparkles,
    Share,
    Info,
    Check,
    RefreshCw,
    Upload,
    PanelLeft,
    PanelRight,
    PanelBottom,
    AlertTriangle,
    Lightbulb,
    Library,
    Film,
    Globe,
    Dice,
    Puzzle,
    Grid,
    Message,
    BarChart,
    Plug,
    Stop,
    Flag,
    Eye,
    Close,
    Magnify,
    Save,
    Image,
    Target,
    Pin,
    Menu,
}

/// Every icon, in asset-listing order.
pub open spec fn all_icons() -> Seq<ShellIcon> {
    seq![
        ShellIcon::BookOpen,
        ShellIcon::Swords,
        ShellIcon::Radio,
        ShellIcon::Volume2,
        ShellIcon::VolumeX,
        ShellIcon::Settings,
        ShellIcon::Play,
        ShellIcon::Pause,
        ShellIcon::ChevronLeft,
        ShellIcon::ChevronRight,
        ShellIcon::ChevronsLeft,
        ShellIcon::ChevronsRight,
        ShellIcon::TrendingUp,
        ShellIcon::GitBranch,
        ShellIcon::Terminal,
        ShellIcon::Cpu,
        ShellIcon::Sparkles,
        ShellIcon::Share,
        ShellIcon::Info,
        ShellIcon::Check,
        ShellIcon::RefreshCw,
        ShellIcon::Upload,
        ShellIcon::PanelLeft,
        ShellIcon::PanelRight,
        ShellIcon::PanelBottom,
        ShellIcon::AlertTriangle,
        ShellIcon::Lightbulb,
        ShellIcon::Library,
        ShellIcon::Film,
        ShellIcon::Globe,
        ShellIcon::Dice,
        ShellIcon::Puzzle,
        ShellIcon::Grid,
        ShellIcon::Message,
        ShellIcon::BarChart,
        ShellIcon::Plug,
        ShellIcon::Stop,
        ShellIcon::Flag,
        ShellIcon::Eye,
        ShellIcon::Close,
        ShellIcon::Magnify,
        ShellIcon::Save,
        ShellIcon::Image,
        ShellIcon::Target,
        ShellIcon::Pin,
        ShellIcon::Menu,
    ]
}

impl ShellIcon {
    pub open spec fn spec_path(self) -> &'static str {
        match self {
            ShellIcon::BookOpen => "icons/book-open.svg",
            ShellIcon::Swords => "icons/swords.svg",
            ShellIcon::Radio => "icons/radio.svg",
            ShellIcon::Volume2 => "icons/volume-2.svg",
            ShellIcon::VolumeX => "icons/volume-x.svg",
            ShellIcon::Settings => "icons/settings.svg",
            ShellIcon::Play => "icons/play.svg",
            ShellIcon::Pause => "icons/pause.svg",
            ShellIcon::ChevronLeft => "icons/chevron-left.svg",
            ShellIcon::ChevronRight => "icons/chevron-right.svg",
            ShellIcon::ChevronsLeft => "icons/chevrons-left.svg",
            ShellIcon::ChevronsRight => "icons/chevrons-right.svg",
            ShellIcon::TrendingUp => "icons/trending-up.svg",
            ShellIcon::GitBranch => "icons/git-branch.svg",
            ShellIcon::Terminal => "icons/terminal.svg",
            ShellIcon::Cpu => "icons/cpu.svg",
            ShellIcon::Sparkles => "icons/sparkles.svg",
            ShellIcon::Share => "icons/share.svg",
            ShellIcon::Info => "icons/info.svg",
            ShellIcon::Check => "icons/check.svg",
            ShellIcon::RefreshCw => "icons/refresh-cw.svg",
            ShellIcon::Upload => "icons/upload.svg",
            ShellIcon::PanelLeft => "icons/panel-left.svg",
            ShellIcon::PanelRight => "icons/panel-right.svg",
            ShellIcon::PanelBottom => "icons/panel-bottom.svg",
            ShellIcon::AlertTriangle => "icons/alert-triangle.svg",
            ShellIcon::Lightbulb => "icons/lightbulb.svg",
            ShellIcon::Library => "icons/library.svg",
            ShellIcon::Film => "icons/film.svg",
            ShellIcon::Globe => "icons/globe.svg",
            ShellIcon::Dice => "icons/dice.svg",
            ShellIcon::Puzzle => "icons/puzzle.svg",
            ShellIcon::Grid => "icons/grid.svg",
            ShellIcon::Message => "icons/message.svg",
            ShellIcon::BarChart => "icons/bar-chart.svg",
            ShellIcon::Plug => "icons/plug.svg",
            ShellIcon::Stop => "icons/stop.svg",
            ShellIcon::Flag => "icons/flag.svg",
            ShellIcon::Eye => "icons/eye.svg",
            ShellIcon::Close => "icons/close.svg",
            ShellIcon::Magnify => "icons/magnify.svg",
            ShellIcon::Save => "icons/save.svg",
            ShellIcon::Image => "icons/image.svg",
            ShellIcon::Target => "icons/target.svg",
            ShellIcon::Pin => "icons/pin.svg",
            ShellIcon::Menu => "icons/menu.svg",
        }
    }

    pub open spec fn spec_svg(self) -> &'static str {
        match self {
            ShellIcon::BookOpen => BOOK_OPEN,
            ShellIcon::Swords => SWORDS,
            ShellIcon::Radio => RADIO,
            ShellIcon::Volume2 => VOLUME_2,
            ShellIcon::VolumeX => VOLUME_X,
            ShellIcon::Settings => SETTINGS,
            ShellIcon::Play => PLAY,
            ShellIcon::Pause => PAUSE,
            ShellIcon::ChevronLeft => CHEVRON_LEFT,
            ShellIcon::ChevronRight => CHEVRON_RIGHT,
            ShellIcon::ChevronsLeft => CHEVRONS_LEFT,
            ShellIcon::ChevronsRight => CHEVRONS_RIGHT,
            ShellIcon::TrendingUp => TRENDING_UP,
            ShellIcon::GitBranch => GIT_BRANCH,
            ShellIcon::Terminal => TERMINAL,
            ShellIcon::Cpu => CPU,
            ShellIcon::Sparkles => SPARKLES,
            ShellIcon::Share => SHARE,
            ShellIcon::Info => INFO,
            ShellIcon::Check => CHECK,
            ShellIcon::RefreshCw => REFRESH_CW,
            ShellIcon::Upload => UPLOAD,
            ShellIcon::PanelLeft => PANEL_LEFT,
            ShellIcon::PanelRight => PANEL_RIGHT,
            ShellIcon::PanelBottom => PANEL_BOTTOM,
            ShellIcon::AlertTriangle => ALERT_TRIANGLE,
            ShellIcon::Lightbulb => LIGHTBULB,
            ShellIcon::Library => LIBRARY,
            ShellIcon::Film => FILM,
            ShellIcon::Globe => GLOBE,
            ShellIcon::Dice => DICE,
            ShellIcon::Puzzle => PUZZLE,
            ShellIcon::Grid => GRID,
            ShellIcon::Message => MESSAGE,
            ShellIcon::BarChart => BAR_CHART,
            ShellIcon::Plug => PLUG,
            ShellIcon::Stop => STOP,
            ShellIcon::Flag => FLAG,
            ShellIcon::Eye => EYE,
            ShellIcon::Close => CLOSE,
            ShellIcon::Magnify => MAGNIFY,
            ShellIcon::Save => SAVE,
            ShellIcon::Image => IMAGE,
            ShellIcon::Target => TARGET,
            ShellIcon::Pin => PIN,
            ShellIcon::Menu => MENU,
        }
    }

    /// The `icons/<name>.svg` asset path of this icon.
    pub fn path(self) -> (p: &'static str)
        ensures
            p == self.spec_path(),
    {
        match self {
            ShellIcon::BookOpen => "icons/book-open.svg",
            ShellIcon::Swords => "icons/swords.svg",
            ShellIcon::Radio => "icons/radio.svg",
            ShellIcon::Volume2 => "icons/volume-2.svg",
            ShellIcon::VolumeX => "icons/volume-x.svg",
            ShellIcon::Settings => "icons/settings.svg",
            ShellIcon::Play => "icons/play.svg",
            ShellIcon::Pause => "icons/pause.svg",
            ShellIcon::ChevronLeft => "icons/chevron-left.svg",
            ShellIcon::ChevronRight => "icons/chevron-right.svg",
            ShellIcon::ChevronsLeft => "icons/chevrons-left.svg",
            ShellIcon::ChevronsRight => "icons/chevrons-right.svg",
            ShellIcon::TrendingUp => "icons/trending-up.svg",
            ShellIcon::GitBranch => "icons/git-branch.svg",
            ShellIcon::Terminal => "icons/terminal.svg",
            ShellIcon::Cpu => "icons/cpu.svg",
            ShellIcon::Sparkles => "icons/sparkles.svg",
            ShellIcon::Share => "icons/share.svg",
            ShellIcon::Info => "icons/info.svg",
            ShellIcon::Check => "icons/check.svg",
            ShellIcon::RefreshCw => "icons/refresh-cw.svg",
            ShellIcon::Upload => "icons/upload.svg",
            ShellIcon::PanelLeft => "icons/panel-left.svg",
            ShellIcon::PanelRight => "icons/panel-right.svg",
            ShellIcon::PanelBottom => "icons/panel-bottom.svg",
            ShellIcon::AlertTriangle => "icons/alert-triangle.svg",
            ShellIcon::Lightbulb => "icons/lightbulb.svg",
            ShellIcon::Library => "icons/library.svg",
            ShellIcon::Film => "icons/film.svg",
            ShellIcon::Globe => "icons/globe.svg",
            ShellIcon::Dice => "icons/dice.svg",
            ShellIcon::Puzzle => "icons/puzzle.svg",
            ShellIcon::Grid => "icons/grid.svg",
            ShellIcon::Message => "icons/message.svg",
            ShellIcon::BarChart => "icons/bar-chart.svg",
            ShellIcon::Plug => "icons/plug.svg",
            ShellIcon::Stop => "icons/stop.svg",
            ShellIcon::Flag => "icons/flag.svg",
            ShellIcon::Eye => "icons/eye.svg",
            ShellIcon::Close => "icons/close.svg",
            ShellIcon::Magnify => "icons/magnify.svg",
            ShellIcon::Save => "icons/save.svg",
            ShellIcon::Image => "icons/image.svg",
            ShellIcon::Target => "icons/target.svg",
            ShellIcon::Pin => "icons/pin.svg",
            ShellIcon::Menu => "icons/menu.svg",
        }
    }

    /// The SVG document of this icon.
    pub fn svg(self) -> (s: &'static str)
        ensures
            s == self.spec_svg(),
    {
        match self {
            ShellIcon::BookOpen => BOOK_OPEN,
            ShellIcon::Swords => SWORDS,
            ShellIcon::Radio => RADIO,
            ShellIcon::Volume2 => VOLUME_2,
            ShellIcon::VolumeX => VOLUME_X,
            ShellIcon::Settings => SETTINGS,
            ShellIcon::Play => PLAY,
            ShellIcon::Pause => PAUSE,
            ShellIcon::ChevronLeft => CHEVRON_LEFT,
            ShellIcon::ChevronRight => CHEVRON_RIGHT,
            ShellIcon::ChevronsLeft => CHEVRONS_LEFT,
            ShellIcon::ChevronsRight => CHEVRONS_RIGHT,
            ShellIcon::TrendingUp => TRENDING_UP,
            ShellIcon::GitBranch => GIT_BRANCH,
            ShellIcon::Terminal => TERMINAL,
            ShellIcon::Cpu => CPU,
            ShellIcon::Sparkles => SPARKLES,
            ShellIcon::Share => SHARE,
            ShellIcon::Info => INFO,
            ShellIcon::Check => CHECK,
            ShellIcon::RefreshCw => REFRESH_CW,
            ShellIcon::Upload => UPLOAD,
            ShellIcon::PanelLeft => PANEL_LEFT,
            ShellIcon::PanelRight => PANEL_RIGHT,
            ShellIcon::PanelBottom => PANEL_BOTTOM,
            ShellIcon::AlertTriangle => ALERT_TRIANGLE,
            ShellIcon::Lightbulb => LIGHTBULB,
            ShellIcon::Library => LIBRARY,
            ShellIcon::Film => FILM,
            ShellIcon::Globe => GLOBE,
            ShellIcon::Dice => DICE,
            ShellIcon::Puzzle => PUZZLE,
            ShellIcon::Grid => GRID,
            ShellIcon::Message => MESSAGE,
            ShellIcon::BarChart => BAR_CHART,
            ShellIcon::Plug => PLUG,
            ShellIcon::Stop => STOP,
            ShellIcon::Flag => FLAG,
            ShellIcon::Eye => EYE,
            ShellIcon::Close => CLOSE,
            ShellIcon::Magnify => MAGNIFY,
            ShellIcon::Save => SAVE,
            ShellIcon::Image => IMAGE,
            ShellIcon::Target => TARGET,
            ShellIcon::Pin => PIN,
            ShellIcon::Menu => MENU,
        }
    }
}

fn icon_list() -> (icons: Vec<ShellIcon>)
    ensures
        icons@ == all_icons(),
{
    let icons = vec![
        ShellIcon::BookOpen,
        ShellIcon::Swords,
        ShellIcon::Radio,
        ShellIcon::Volume2,
        ShellIcon::VolumeX,
        ShellIcon::Settings,
        ShellIcon::Play,
        ShellIcon::Pause,
        ShellIcon::ChevronLeft,
        ShellIcon::ChevronRight,
        ShellIcon::ChevronsLeft,
        ShellIcon::ChevronsRight,
        ShellIcon::TrendingUp,
        ShellIcon::GitBranch,
        ShellIcon::Terminal,
        ShellIcon::Cpu,
        ShellIcon::Sparkles,
        ShellIcon::Share,
        ShellIcon::Info,
        ShellIcon::Check,
        ShellIcon::RefreshCw,
        ShellIcon::Upload,
        ShellIcon::PanelLeft,
        ShellIcon::PanelRight,
        ShellIcon::PanelBottom,
        ShellIcon::AlertTriangle,
        ShellIcon::Lightbulb,
        ShellIcon::Library,
        ShellIcon::Film,
        ShellIcon::Globe,
        ShellIcon::Dice,
        ShellIcon::Puzzle,
        ShellIcon::Grid,
        ShellIcon::Message,
        ShellIcon::BarChart,
        ShellIcon::Plug,
        ShellIcon::Stop,
        ShellIcon::Flag,
        ShellIcon::Eye,
        ShellIcon::Close,
        ShellIcon::Magnify,
        ShellIcon::Save,
        ShellIcon::Image,
        ShellIcon::Target,
        ShellIcon::Pin,
        ShellIcon::Menu,
    ];
    assert(icons@ =~= all_icons());
    icons
}

/// The first icon (in listing order) whose asset path is `path`.
pub open spec fn icon_at_path(icons: Seq<ShellIcon>, path: Seq<char>) -> Option<ShellIcon>
    decreases icons.len(),
{
    if icons.len() == 0 {
        None
    } else if icons[0].spec_path()@ == path {
        Some(icons[0])
    } else {
        icon_at_path(icons.drop_first(), path)
    }
}

/// The embedded SVG document served for an asset path.
pub open spec fn spec_lookup(path: Seq<char>) -> Option<&'static str> {
    match icon_at_path(all_icons(), path) {
        Some(icon) => Some(icon.spec_svg()),
        None => None,
    }
}

/// Embedded icon documents keyed by their `icons/<name>.svg` asset path.
pub fn lookup(path: &str) -> (svg: Option<&'static str>)
    ensures
        svg == spec_lookup(path@),
{
    let icons = icon_list();
    let mut i: usize = 0;
    assert(all_icons().skip(0) =~= all_icons());
    while i < icons.len()
        invariant
            icons@ == all_icons(),
            i <= icons@.len(),
            icon_at_path(all_icons(), path@) == icon_at_path(all_icons().skip(i as int), path@),
        decreases icons.len() - i,
    {
        assert(all_icons().skip(i as int)[0] == icons@[i as int]);
        assert(all_icons().skip(i as int).drop_first() =~= all_icons().skip(i + 1));
        if str_eq(path, icons[i].path()) {
            return Some(icons[i].svg());
        }
        i += 1;
    }
    assert(all_icons().skip(i as int).len() == 0);
    None
}

/// Whether `path` names the icon asset directory.
pub open spec fn is_icon_directory(path: Seq<char>) -> bool {
    path == "icons"@ || path == "icons/"@
}

/// Serves the embedded icons as assets.
pub struct EmbeddedIcons;

impl EmbeddedIcons {
    /// The bytes of the asset at `path`, if it is an embedded icon.
    pub fn load(&self, path: &str) -> (bytes: Option<&'static [u8]>)
        ensures
            match spec_lookup(path@) {
                Some(svg) => bytes matches Some(b) && b@ == svg.spec_bytes(),
                None => bytes is None,
            },
    {
        match lookup(path) {
            Some(svg) => Some(svg.as_bytes()),
            None => None,
        }
    }

    /// The asset paths under `path`: every icon for the icon directory,
    /// nothing elsewhere.
    pub fn list(&self, path: &str) -> (paths: Vec<&'static str>)
        ensures
            is_icon_directory(path@) ==> paths@ == all_icons().map_values(
                |icon: ShellIcon| icon.spec_path(),
            ),
            !is_icon_directory(path@) ==> paths@.len() == 0,
    {
        if str_eq(path, "icons") || str_eq(path, "icons/") {
            let icons = icon_list();
            let mut paths: Vec<&'static str> = Vec::new();
            let mut i: usize = 0;
            while i < icons.len()
                invariant
                    icons@ == all_icons(),
                    i <= icons@.len(),
                    paths@ == all_icons().take(i as int).map_values(
                        |icon: ShellIcon| icon.spec_path(),
                    ),
                decreases icons.len() - i,
            {
                paths.push(icons[i].path());
                i += 1;
                assert(paths@ =~= all_icons().take(i as int).map_values(
                    |icon: ShellIcon| icon.spec_path(),
                ));
            }
            assert(all_icons().take(i as int) =~= all_icons());
            paths
        } else {
            Vec::new()
        }
    }
}

} // verus!

verus! {

/// Distinct icons have distinct asset paths.
pub proof fn law_icon_paths_distinct(a: ShellIcon, b: ShellIcon)
    requires
        a != b,
    ensures
        a.spec_path()@ != b.spec_path()@,
{
    reveal_strlit("icons/book-open.svg");
    reveal_strlit("icons/swords.svg");
    reveal_strlit("icons/radio.svg");
    reveal_strlit("icons/volume-2.svg");
    reveal_strlit("icons/volume-x.svg");
    reveal_strlit("icons/settings.svg");
    reveal_strlit("icons/play.svg");
    reveal_strlit("icons/pause.svg");
    reveal_strlit("icons/chevron-left.svg");
    reveal_strlit("icons/chevron-right.svg");
    reveal_strlit("icons/chevrons-left.svg");
    reveal_strlit("icons/chevrons-right.svg");
    reveal_strlit("icons/trending-up.svg");
    reveal_strlit("icons/git-branch.svg");
    reveal_strlit("icons/terminal.svg");
    reveal_strlit("icons/cpu.svg");
    reveal_strlit("icons/sparkles.svg");
    reveal_strlit("icons/share.svg");
    reveal_strlit("icons/info.svg");
    reveal_strlit("icons/check.svg");
    reveal_strlit("icons/refresh-cw.svg");
    reveal_strlit("icons/upload.svg");
    reveal_strlit("icons/panel-left.svg");
    reveal_strlit("icons/panel-right.svg");
    reveal_strlit("icons/panel-bottom.svg");
    reveal_strlit("icons/alert-triangle.svg");
    reveal_strlit("icons/lightbulb.svg");
    reveal_strlit("icons/library.svg");
    reveal_strlit("icons/film.svg");
    reveal_strlit("icons/globe.svg");
    reveal_strlit("icons/dice.svg");
    reveal_strlit("icons/puzzle.svg");
    reveal_strlit("icons/grid.svg");
    reveal_strlit("icons/message.svg");
    reveal_strlit("icons/bar-chart.svg");
    reveal_strlit("icons/plug.svg");
    reveal_strlit("icons/stop.svg");
    reveal_strlit("icons/flag.svg");
    reveal_strlit("icons/eye.svg");
    reveal_strlit("icons/close.svg");
    reveal_strlit("icons/magnify.svg");
    reveal_strlit("icons/save.svg");
    reveal_strlit("icons/image.svg");
    reveal_strlit("icons/target.svg");
    reveal_strlit("icons/pin.svg");
    reveal_strlit("icons/menu.svg");
    assert("icons/book-open.svg"@.len() == 19 && "icons/book-open.svg"@[6] == 'b' && "icons/book-open.svg"@[7] == 'o' && "icons/book-open.svg"@[8] == 'o' && "icons/book-open.svg"@[13] == 'e');
    assert("icons/swords.svg"@.len() == 16 && "icons/swords.svg"@[6] == 's' && "icons/swords.svg"@[7] == 'w' && "icons/swords.svg"@[8] == 'o' && "icons/swords.svg"@[13] == 's');
    assert("icons/radio.svg"@.len() == 15 && "icons/radio.svg"@[6] == 'r' && "icons/radio.svg"@[7] == 'a' && "icons/radio.svg"@[8] == 'd' && "icons/radio.svg"@[13] == 'v');
    assert("icons/volume-2.svg"@.len() == 18 && "icons/volume-2.svg"@[6] == 'v' && "icons/volume-2.svg"@[7] == 'o' && "icons/volume-2.svg"@[8] == 'l' && "icons/volume-2.svg"@[13] == '2');
    assert("icons/volume-x.svg"@.len() == 18 && "icons/volume-x.svg"@[6] == 'v' && "icons/volume-x.svg"@[7] == 'o' && "icons/volume-x.svg"@[8] == 'l' && "icons/volume-x.svg"@[13] == 'x');
    assert("icons/settings.svg"@.len() == 18 && "icons/settings.svg"@[6] == 's' && "icons/settings.svg"@[7] == 'e' && "icons/settings.svg"@[8] == 't' && "icons/settings.svg"@[13] == 's');
    assert("icons/play.svg"@.len() == 14 && "icons/play.svg"@[6] == 'p' && "icons/play.svg"@[7] == 'l' && "icons/play.svg"@[8] == 'a' && "icons/play.svg"@[13] == 'g');
    assert("icons/pause.svg"@.len() == 15 && "icons/pause.svg"@[6] == 'p' && "icons/pause.svg"@[7] == 'a' && "icons/pause.svg"@[8] == 'u' && "icons/pause.svg"@[13] == 'v');
    assert("icons/chevron-left.svg"@.len() == 22 && "icons/chevron-left.svg"@[6] == 'c' && "icons/chevron-left.svg"@[7] == 'h' && "icons/chevron-left.svg"@[8] == 'e' && "icons/chevron-left.svg"@[13] == '-');
    assert("icons/chevron-right.svg"@.len() == 23 && "icons/chevron-right.svg"@[6] == 'c' && "icons/chevron-right.svg"@[7] == 'h' && "icons/chevron-right.svg"@[8] == 'e' && "icons/chevron-right.svg"@[13] == '-');
    assert("icons/chevrons-left.svg"@.len() == 23 && "icons/chevrons-left.svg"@[6] == 'c' && "icons/chevrons-left.svg"@[7] == 'h' && "icons/chevrons-left.svg"@[8] == 'e' && "icons/chevrons-left.svg"@[13] == 's');
    assert("icons/chevrons-right.svg"@.len() == 24 && "icons/chevrons-right.svg"@[6] == 'c' && "icons/chevrons-right.svg"@[7] == 'h' && "icons/chevrons-right.svg"@[8] == 'e' && "icons/chevrons-right.svg"@[13] == 's');
    assert("icons/trending-up.svg"@.len() == 21 && "icons/trending-up.svg"@[6] == 't' && "icons/trending-up.svg"@[7] == 'r' && "icons/trending-up.svg"@[8] == 'e' && "icons/trending-up.svg"@[13] == 'g');
    assert("icons/git-branch.svg"@.len() == 20 && "icons/git-branch.svg"@[6] == 'g' && "icons/git-branch.svg"@[7] == 'i' && "icons/git-branch.svg"@[8] == 't' && "icons/git-branch.svg"@[13] == 'n');
    assert("icons/terminal.svg"@.len() == 18 && "icons/terminal.svg"@[6] == 't' && "icons/terminal.svg"@[7] == 'e' && "icons/terminal.svg"@[8] == 'r' && "icons/terminal.svg"@[13] == 'l');
    assert("icons/cpu.svg"@.len() == 13 && "icons/cpu.svg"@[6] == 'c' && "icons/cpu.svg"@[7] == 'p' && "icons/cpu.svg"@[8] == 'u');
    assert("icons/sparkles.svg"@.len() == 18 && "icons/sparkles.svg"@[6] == 's' && "icons/sparkles.svg"@[7] == 'p' && "icons/sparkles.svg"@[8] == 'a' && "icons/sparkles.svg"@[13] == 's');
    assert("icons/share.svg"@.len() == 15 && "icons/share.svg"@[6] == 's' && "icons/share.svg"@[7] == 'h' && "icons/share.svg"@[8] == 'a' && "icons/share.svg"@[13] == 'v');
    assert("icons/info.svg"@.len() == 14 && "icons/info.svg"@[6] == 'i' && "icons/info.svg"@[7] == 'n' && "icons/info.svg"@[8] == 'f' && "icons/info.svg"@[13] == 'g');
    assert("icons/check.svg"@.len() == 15 && "icons/check.svg"@[6] == 'c' && "icons/check.svg"@[7] == 'h' && "icons/check.svg"@[8] == 'e' && "icons/check.svg"@[13] == 'v');
    assert("icons/refresh-cw.svg"@.len() == 20 && "icons/refresh-cw.svg"@[6] == 'r' && "icons/refresh-cw.svg"@[7] == 'e' && "icons/refresh-cw.svg"@[8] == 'f' && "icons/refresh-cw.svg"@[13] == '-');
    assert("icons/upload.svg"@.len() == 16 && "icons/upload.svg"@[6] == 'u' && "icons/upload.svg"@[7] == 'p' && "icons/upload.svg"@[8] == 'l' && "icons/upload.svg"@[13] == 's');
    assert("icons/panel-left.svg"@.len() == 20 && "icons/panel-left.svg"@[6] == 'p' && "icons/panel-left.svg"@[7] == 'a' && "icons/panel-left.svg"@[8] == 'n' && "icons/panel-left.svg"@[13] == 'e');
    assert("icons/panel-right.svg"@.len() == 21 && "icons/panel-right.svg"@[6] == 'p' && "icons/panel-right.svg"@[7] == 'a' && "icons/panel-right.svg"@[8] == 'n' && "icons/panel-right.svg"@[13] == 'i');
    assert("icons/panel-bottom.svg"@.len() == 22 && "icons/panel-bottom.svg"@[6] == 'p' && "icons/panel-bottom.svg"@[7] == 'a' && "icons/panel-bottom.svg"@[8] == 'n' && "icons/panel-bottom.svg"@[13] == 'o');
    assert("icons/alert-triangle.svg"@.len() == 24 && "icons/alert-triangle.svg"@[6] == 'a' && "icons/alert-triangle.svg"@[7] == 'l' && "icons/alert-triangle.svg"@[8] == 'e' && "icons/alert-triangle.svg"@[13] == 'r');
    assert("icons/lightbulb.svg"@.len() == 19 && "icons/lightbulb.svg"@[6] == 'l' && "icons/lightbulb.svg"@[7] == 'i' && "icons/lightbulb.svg"@[8] == 'g' && "icons/lightbulb.svg"@[13] == 'l');
    assert("icons/library.svg"@.len() == 17 && "icons/library.svg"@[6] == 'l' && "icons/library.svg"@[7] == 'i' && "icons/library.svg"@[8] == 'b' && "icons/library.svg"@[13] == '.');
    assert("icons/film.svg"@.len() == 14 && "icons/film.svg"@[6] == 'f' && "icons/film.svg"@[7] == 'i' && "icons/film.svg"@[8] == 'l' && "icons/film.svg"@[13] == 'g');
    assert("icons/globe.svg"@.len() == 15 && "icons/globe.svg"@[6] == 'g' && "icons/globe.svg"@[7] == 'l' && "icons/globe.svg"@[8] == 'o' && "icons/globe.svg"@[13] == 'v');
    assert("icons/dice.svg"@.len() == 14 && "icons/dice.svg"@[6] == 'd' && "icons/dice.svg"@[7] == 'i' && "icons/dice.svg"@[8] == 'c' && "icons/dice.svg"@[13] == 'g');
    assert("icons/puzzle.svg"@.len() == 16 && "icons/puzzle.svg"@[6] == 'p' && "icons/puzzle.svg"@[7] == 'u' && "icons/puzzle.svg"@[8] == 'z' && "icons/puzzle.svg"@[13] == 's');
    assert("icons/grid.svg"@.len() == 14 && "icons/grid.svg"@[6] == 'g' && "icons/grid.svg"@[7] == 'r' && "icons/grid.svg"@[8] == 'i' && "icons/grid.svg"@[13] == 'g');
    assert("icons/message.svg"@.len() == 17 && "icons/message.svg"@[6] == 'm' && "icons/message.svg"@[7] == 'e' && "icons/message.svg"@[8] == 's' && "icons/message.svg"@[13] == '.');
    assert("icons/bar-chart.svg"@.len() == 19 && "icons/bar-chart.svg"@[6] == 'b' && "icons/bar-chart.svg"@[7] == 'a' && "icons/bar-chart.svg"@[8] == 'r' && "icons/bar-chart.svg"@[13] == 'r');
    assert("icons/plug.svg"@.len() == 14 && "icons/plug.svg"@[6] == 'p' && "icons/plug.svg"@[7] == 'l' && "icons/plug.svg"@[8] == 'u' && "icons/plug.svg"@[13] == 'g');
    assert("icons/stop.svg"@.len() == 14 && "icons/stop.svg"@[6] == 's' && "icons/stop.svg"@[7] == 't' && "icons/stop.svg"@[8] == 'o' && "icons/stop.svg"@[13] == 'g');
    assert("icons/flag.svg"@.len() == 14 && "icons/flag.svg"@[6] == 'f' && "icons/flag.svg"@[7] == 'l' && "icons/flag.svg"@[8] == 'a' && "icons/flag.svg"@[13] == 'g');
    assert("icons/eye.svg"@.len() == 13 && "icons/eye.svg"@[6] == 'e' && "icons/eye.svg"@[7] == 'y' && "icons/eye.svg"@[8] == 'e');
    assert("icons/close.svg"@.len() == 15 && "icons/close.svg"@[6] == 'c' && "icons/close.svg"@[7] == 'l' && "icons/close.svg"@[8] == 'o' && "icons/close.svg"@[13] == 'v');
    assert("icons/magnify.svg"@.len() == 17 && "icons/magnify.svg"@[6] == 'm' && "icons/magnify.svg"@[7] == 'a' && "icons/magnify.svg"@[8] == 'g' && "icons/magnify.svg"@[13] == '.');
    assert("icons/save.svg"@.len() == 14 && "icons/save.svg"@[6] == 's' && "icons/save.svg"@[7] == 'a' && "icons/save.svg"@[8] == 'v' && "icons/save.svg"@[13] == 'g');
    assert("icons/image.svg"@.len() == 15 && "icons/image.svg"@[6] == 'i' && "icons/image.svg"@[7] == 'm' && "icons/image.svg"@[8] == 'a' && "icons/image.svg"@[13] == 'v');
    assert("icons/target.svg"@.len() == 16 && "icons/target.svg"@[6] == 't' && "icons/target.svg"@[7] == 'a' && "icons/target.svg"@[8] == 'r' && "icons/target.svg"@[13] == 's');
    assert("icons/pin.svg"@.len() == 13 && "icons/pin.svg"@[6] == 'p' && "icons/pin.svg"@[7] == 'i' && "icons/pin.svg"@[8] == 'n');
    assert("icons/menu.svg"@.len() == 14 && "icons/menu.svg"@[6] == 'm' && "icons/menu.svg"@[7] == 'e' && "icons/menu.svg"@[8] == 'n' && "icons/menu.svg"@[13] == 'g');
}

}

verus! {

/// The first icon of `icons` with `i`'s path is `i` itself when `i` is listed.
proof fn lemma_icon_found(icons: Seq<ShellIcon>, i: ShellIcon)
    requires
        icons.contains(i),
    ensures
        icon_at_path(icons, i.spec_path()@) == Some(i),
    decreases icons.len(),
{
    if icons[0] != i {
        law_icon_paths_distinct(icons[0], i);
        let k = choose|k: int| 0 <= k < icons.len() && icons[k] == i;
        assert(icons.drop_first()[k - 1] == i);
        lemma_icon_found(icons.drop_first(), i);
    }
}

/// Every icon has an `icons/<name>.svg` path, is listed, and its path serves
/// its own SVG document.
pub proof fn law_icon_paths_served(i: ShellIcon)
    ensures
        i.spec_path()@.len() > 10,
        i.spec_path()@.subrange(0, 6) == "icons/"@,
        i.spec_path()@.subrange(i.spec_path()@.len() - 4, i.spec_path()@.len() as int) == ".svg"@,
        all_icons().contains(i),
        spec_lookup(i.spec_path()@) == Some(i.spec_svg()),
{
    reveal_strlit("icons/");
    reveal_strlit(".svg");
    let p = i.spec_path()@;
    match i {
        ShellIcon::BookOpen => {
            reveal_strlit("icons/book-open.svg");
            assert(all_icons()[0] == i);
            assert(p.subrange(0, 6) =~= "icons/"@);
            assert(p.subrange(p.len() - 4, p.len() as int) =~= ".svg"@);
        },
        ShellIcon::Swords => {
            reveal_strlit("icons/swords.svg");
            assert(all_icons()[1] == i);
            assert(p.subrange(0, 6) =~= "icons/"@);
            assert(p.subrange(p.len() - 4, p.len() as int) =~= ".svg"@);
        },
        ShellIcon::Radio => {
            reveal_strlit("icons/radio.svg");
            assert(all_icons()[2] == i);
            assert(p.subrange(0, 6) =~= "icons/"@);
            assert(p.subrange(p.len() - 4, p.len() as int) =~= ".svg"@);
        },
        ShellIcon::Volume2 => {
            reveal_strlit("icons/volume-2.svg");
            assert(all_icons()[3] == i);
            assert(p.subrange(0, 6) =~= "icons/"@);
            assert(p.subrange(p.len() - 4, p.len() as int) =~= ".svg"@);
        },
        ShellIcon::VolumeX => {
            reveal_strlit("icons/volume-x.svg");
            assert(all_icons()[4] == i);
            assert(p.subrange(0, 6) =~= "icons/"@);
            assert(p.subrange(p.len() - 4, p.len() as int) =~= ".svg"@);
        },
        ShellIcon::Settings => {
            reveal_strlit("icons/settings.svg");
            assert(all_icons()[5] == i);
            assert(p.subrange(0, 6) =~= "icons/"@);
            assert(p.subrange(p.len() - 4, p.len() as int) =~= ".svg"@);
        },
        ShellIcon::Play => {
            reveal_strlit("icons/play.svg");
            assert(all_icons()[6] == i);
            assert(p.subrange(0, 6) =~= "icons/"@);
            assert(p.subrange(p.len() - 4, p.len() as int) =~= ".svg"@);
        },
        ShellIcon::Pause => {
            reveal_strlit("icons/pause.svg");
            assert(all_icons()[7] == i);
            assert(p.subrange(0, 6) =~= "icons/"@);
            assert(p.subrange(p.len() - 4, p.len() as int) =~= ".svg"@);
        },
        ShellIcon::ChevronLeft => {
            reveal_strlit("icons/chevron-left.svg");
            assert(all_icons()[8] == i);
            assert(p.subrange(0, 6) =~= "icons/"@);
            assert(p.subrange(p.len() - 4, p.len() as int) =~= ".svg"@);
        },
        ShellIcon::ChevronRight => {
            reveal_strlit("icons/chevron-right.svg");
            assert(all_icons()[9] == i);
            assert(p.subrange(0, 6) =~= "icons/"@);
            assert(p.subrange(p.len() - 4, p.len() as int) =~= ".svg"@);
        },
        ShellIcon::ChevronsLeft => {
            reveal_strlit("icons/chevrons-left.svg");
            assert(all_icons()[10] == i);
            assert(p.subrange(0, 6) =~= "icons/"@);
            assert(p.subrange(p.len() - 4, p.len() as int) =~= ".svg"@);
        },
        ShellIcon::ChevronsRight => {
            reveal_strlit("icons/chevrons-right.svg");
            assert(all_icons()[11] == i);
            assert(p.subrange(0, 6) =~= "icons/"@);
            assert(p.subrange(p.len() - 4, p.len() as int) =~= ".svg"@);
        },
        ShellIcon::TrendingUp => {
            reveal_strlit("icons/trending-up.svg");
            assert(all_icons()[12] == i);
            assert(p.subrange(0, 6) =~= "icons/"@);
            assert(p.subrange(p.len() - 4, p.len() as int) =~= ".svg"@);
        },
        ShellIcon::GitBranch => {
            reveal_strlit("icons/git-branch.svg");
            assert(all_icons()[13] == i);
            assert(p.subrange(0, 6) =~= "icons/"@);
            assert(p.subrange(p.len() - 4, p.len() as int) =~= ".svg"@);
        },
        ShellIcon::Terminal => {
            reveal_strlit("icons/terminal.svg");
            assert(all_icons()[14] == i);
            assert(p.subrange(0, 6) =~= "icons/"@);
            assert(p.subrange(p.len() - 4, p.len() as int) =~= ".svg"@);
        },
        ShellIcon::Cpu => {
            reveal_strlit("icons/cpu.svg");
            assert(all_icons()[15] == i);
            assert(p.subrange(0, 6) =~= "icons/"@);
            assert(p.subrange(p.len() - 4, p.len() as int) =~= ".svg"@);
        },
        ShellIcon::Sparkles => {
            reveal_strlit("icons/sparkles.svg");
            assert(all_icons()[16] == i);
            assert(p.subrange(0, 6) =~= "icons/"@);
            assert(p.subrange(p.len() - 4, p.len() as int) =~= ".svg"@);
        },
        ShellIcon::Share => {
            reveal_strlit("icons/share.svg");
            assert(all_icons()[17] == i);
            assert(p.subrange(0, 6) =~= "icons/"@);
            assert(p.subrange(p.len() - 4, p.len() as int) =~= ".svg"@);
        },
        ShellIcon::Info => {
            reveal_strlit("icons/info.svg");
            assert(all_icons()[18] == i);
            assert(p.subrange(0, 6) =~= "icons/"@);
            assert(p.subrange(p.len() - 4, p.len() as int) =~= ".svg"@);
        },
        ShellIcon::Check => {
            reveal_strlit("icons/check.svg");
            assert(all_icons()[19] == i);
            assert(p.subrange(0, 6) =~= "icons/"@);
            assert(p.subrange(p.len() - 4, p.len() as int) =~= ".svg"@);
        },
        ShellIcon::RefreshCw => {
            reveal_strlit("icons/refresh-cw.svg");
            assert(all_icons()[20] == i);
            assert(p.subrange(0, 6) =~= "icons/"@);
            assert(p.subrange(p.len() - 4, p.len() as int) =~= ".svg"@);
        },
        ShellIcon::Upload => {
            reveal_strlit("icons/upload.svg");
            assert(all_icons()[21] == i);
            assert(p.subrange(0, 6) =~= "icons/"@);
            assert(p.subrange(p.len() - 4, p.len() as int) =~= ".svg"@);
        },
        ShellIcon::PanelLeft => {
            reveal_strlit("icons/panel-left.svg");
            assert(all_icons()[22] == i);
            assert(p.subrange(0, 6) =~= "icons/"@);
            assert(p.subrange(p.len() - 4, p.len() as int) =~= ".svg"@);
        },
        ShellIcon::PanelRight => {
            reveal_strlit("icons/panel-right.svg");
            assert(all_icons()[23] == i);
            assert(p.subrange(0, 6) =~= "icons/"@);
            assert(p.subrange(p.len() - 4, p.len() as int) =~= ".svg"@);
        },
        ShellIcon::PanelBottom => {
            reveal_strlit("icons/panel-bottom.svg");
            assert(all_icons()[24] == i);
            assert(p.subrange(0, 6) =~= "icons/"@);
            assert(p.subrange(p.len() - 4, p.len() as int) =~= ".svg"@);
        },
        ShellIcon::AlertTriangle => {
            reveal_strlit("icons/alert-triangle.svg");
            assert(all_icons()[25] == i);
            assert(p.subrange(0, 6) =~= "icons/"@);
            assert(p.subrange(p.len() - 4, p.len() as int) =~= ".svg"@);
        },
        ShellIcon::Lightbulb => {
            reveal_strlit("icons/lightbulb.svg");
            assert(all_icons()[26] == i);
            assert(p.subrange(0, 6) =~= "icons/"@);
            assert(p.subrange(p.len() - 4, p.len() as int) =~= ".svg"@);
        },
        ShellIcon::Library => {
            reveal_strlit("icons/library.svg");
            assert(all_icons()[27] == i);
            assert(p.subrange(0, 6) =~= "icons/"@);
            assert(p.subrange(p.len() - 4, p.len() as int) =~= ".svg"@);
        },
        ShellIcon::Film => {
            reveal_strlit("icons/film.svg");
            assert(all_icons()[28] == i);
            assert(p.subrange(0, 6) =~= "icons/"@);
            assert(p.subrange(p.len() - 4, p.len() as int) =~= ".svg"@);
        },
        ShellIcon::Globe => {
            reveal_strlit("icons/globe.svg");
            assert(all_icons()[29] == i);
            assert(p.subrange(0, 6) =~= "icons/"@);
            assert(p.subrange(p.len() - 4, p.len() as int) =~= ".svg"@);
        },
        ShellIcon::Dice => {
            reveal_strlit("icons/dice.svg");
            assert(all_icons()[30] == i);
            assert(p.subrange(0, 6) =~= "icons/"@);
            assert(p.subrange(p.len() - 4, p.len() as int) =~= ".svg"@);
        },
        ShellIcon::Puzzle => {
            reveal_strlit("icons/puzzle.svg");
            assert(all_icons()[31] == i);
            assert(p.subrange(0, 6) =~= "icons/"@);
            assert(p.subrange(p.len() - 4, p.len() as int) =~= ".svg"@);
        },
        ShellIcon::Grid => {
            reveal_strlit("icons/grid.svg");
            assert(all_icons()[32] == i);
            assert(p.subrange(0, 6) =~= "icons/"@);
            assert(p.subrange(p.len() - 4, p.len() as int) =~= ".svg"@);
        },
        ShellIcon::Message => {
            reveal_strlit("icons/message.svg");
            assert(all_icons()[33] == i);
            assert(p.subrange(0, 6) =~= "icons/"@);
            assert(p.subrange(p.len() - 4, p.len() as int) =~= ".svg"@);
        },
        ShellIcon::BarChart => {
            reveal_strlit("icons/bar-chart.svg");
            assert(all_icons()[34] == i);
            assert(p.subrange(0, 6) =~= "icons/"@);
            assert(p.subrange(p.len() - 4, p.len() as int) =~= ".svg"@);
        },
        ShellIcon::Plug => {
            reveal_strlit("icons/plug.svg");
            assert(all_icons()[35] == i);
            assert(p.subrange(0, 6) =~= "icons/"@);
            assert(p.subrange(p.len() - 4, p.len() as int) =~= ".svg"@);
        },
        ShellIcon::Stop => {
            reveal_strlit("icons/stop.svg");
            assert(all_icons()[36] == i);
            assert(p.subrange(0, 6) =~= "icons/"@);
            assert(p.subrange(p.len() - 4, p.len() as int) =~= ".svg"@);
        },
        ShellIcon::Flag => {
            reveal_strlit("icons/flag.svg");
            assert(all_icons()[37] == i);
            assert(p.subrange(0, 6) =~= "icons/"@);
            assert(p.subrange(p.len() - 4, p.len() as int) =~= ".svg"@);
        },
        ShellIcon::Eye => {
            reveal_strlit("icons/eye.svg");
            assert(all_icons()[38] == i);
            assert(p.subrange(0, 6) =~= "icons/"@);
            assert(p.subrange(p.len() - 4, p.len() as int) =~= ".svg"@);
        },
        ShellIcon::Close => {
            reveal_strlit("icons/close.svg");
            assert(all_icons()[39] == i);
            assert(p.subrange(0, 6) =~= "icons/"@);
            assert(p.subrange(p.len() - 4, p.len() as int) =~= ".svg"@);
        },
        ShellIcon::Magnify => {
            reveal_strlit("icons/magnify.svg");
            assert(all_icons()[40] == i);
            assert(p.subrange(0, 6) =~= "icons/"@);
            assert(p.subrange(p.len() - 4, p.len() as int) =~= ".svg"@);
        },
        ShellIcon::Save => {
            reveal_strlit("icons/save.svg");
            assert(all_icons()[41] == i);
            assert(p.subrange(0, 6) =~= "icons/"@);
            assert(p.subrange(p.len() - 4, p.len() as int) =~= ".svg"@);
        },
        ShellIcon::Image => {
            reveal_strlit("icons/image.svg");
            assert(all_icons()[42] == i);
            assert(p.subrange(0, 6) =~= "icons/"@);
            assert(p.subrange(p.len() - 4, p.len() as int) =~= ".svg"@);
        },
        ShellIcon::Target => {
            reveal_strlit("icons/target.svg");
            assert(all_icons()[43] == i);
            assert(p.subrange(0, 6) =~= "icons/"@);
            assert(p.subrange(p.len() - 4, p.len() as int) =~= ".svg"@);
        },
        ShellIcon::Pin => {
            reveal_strlit("icons/pin.svg");
            assert(all_icons()[44] == i);
            assert(p.subrange(0, 6) =~= "icons/"@);
            assert(p.subrange(p.len() - 4, p.len() as int) =~= ".svg"@);
        },
        ShellIcon::Menu => {
            reveal_strlit("icons/menu.svg");
            assert(all_icons()[45] == i);
            assert(p.subrange(0, 6) =~= "icons/"@);
            assert(p.subrange(p.len() - 4, p.len() as int) =~= ".svg"@);
        },
    }
    lemma_icon_found(all_icons(), i);
}

}

verus! {

/// `d` sets `stroke="currentColor"` at character `k`.
pub open spec fn current_color_stroke_at(d: Seq<char>, k: int) -> bool {
    0 <= k && k + 21 <= d.len() && d.subrange(k, k + 21) == "stroke=\"currentColor\""@
}

/// Every icon document is an `<svg>` element, closed at its very end, whose
/// strokes take the current text color.
pub proof fn law_icon_documents_are_svg(i: ShellIcon)
    ensures
        i.spec_svg()@.len() >= 6,
        i.spec_svg()@.subrange(0, 4) == "<svg"@,
        i.spec_svg()@.subrange(i.spec_svg()@.len() - 6, i.spec_svg()@.len() as int) == "</svg>"@,
        exists|k: int| #[trigger] current_color_stroke_at(i.spec_svg()@, k),
{
    reveal_strlit("<svg");
    reveal_strlit("</svg>");
    reveal_strlit("stroke=\"currentColor\"");
    let d = i.spec_svg()@;
    match i {
        ShellIcon::BookOpen => {
            reveal_strlit("<svg xmlns=\"http://www.w3.org/2000/svg\" width=\"24\" height=\"24\" viewBox=\"0 0 24 24\" fill=\"none\" stroke=\"currentColor\" stroke-width=\"1.8\" stroke-linecap=\"round\" stroke-linejoin=\"round\"><path d=\"M2 3h6a4 4 0 0 1 4 4v14a3 3 0 0 0-3-3H2z\"/><path d=\"M22 3h-6a4 4 0 0 0-4 4v14a3 3 0 0 1 3-3h7z\"/></svg>");
            assert(d.subrange(0, 4) =~= "<svg"@);
            assert(d.subrange(d.len() - 6, d.len() as int) =~= "</svg>"@);
            assert(d.subrange(95, 116) =~= "stroke=\"currentColor\""@);
            assert(current_color_stroke_at(d, 95));
        },
        ShellIcon::Swords => {
            reveal_strlit("<svg xmlns=\"http://www.w3.org/2000/svg\" width=\"24\" height=\"24\" viewBox=\"0 0 24 24\" fill=\"none\" stroke=\"currentColor\" stroke-width=\"1.8\" stroke-linecap=\"round\" stroke-linejoin=\"round\"><polyline points=\"14.5 17.5 3 6 3 3 6 3 17.5 14.5\"/><line x1=\"13\" x2=\"19\" y1=\"19\" y2=\"13\"/><line x1=\"16\" x2=\"20\" y1=\"16\" y2=\"20\"/><line x1=\"19\" x2=\"21\" y1=\"21\" y2=\"19\"/></svg>");
            assert(d.subrange(0, 4) =~= "<svg"@);
            assert(d.subrange(d.len() - 6, d.len() as int) =~= "</svg>"@);
            assert(d.subrange(95, 116) =~= "stroke=\"currentColor\""@);
            assert(current_color_stroke_at(d, 95));
        },
        ShellIcon::Radio => {
            reveal_strlit("<svg xmlns=\"http://www.w3.org/2000/svg\" width=\"24\" height=\"24\" viewBox=\"0 0 24 24\" fill=\"none\" stroke=\"currentColor\" stroke-width=\"1.8\" stroke-linecap=\"round\" stroke-linejoin=\"round\"><circle cx=\"12\" cy=\"12\" r=\"2\"/><path d=\"M16.24 7.76a6 6 0 0 1 0 8.49m-8.48-.01a6 6 0 0 1 0-8.49m11.31-2.82a10 10 0 0 1 0 14.14m-14.14 0a10 10 0 0 1 0-14.14\"/></svg>");
            assert(d.subrange(0, 4) =~= "<svg"@);
            assert(d.subrange(d.len() - 6, d.len() as int) =~= "</svg>"@);
            assert(d.subrange(95, 116) =~= "stroke=\"currentColor\""@);
            assert(current_color_stroke_at(d, 95));
        },
        ShellIcon::Volume2 => {
            reveal_strlit("<svg xmlns=\"http://www.w3.org/2000/svg\" width=\"24\" height=\"24\" viewBox=\"0 0 24 24\" fill=\"none\" stroke=\"currentColor\" stroke-width=\"1.8\" stroke-linecap=\"round\" stroke-linejoin=\"round\"><polygon points=\"11 5 6 9 2 9 2 15 6 15 11 19 11 5\"/><path d=\"M15.54 8.46a5 5 0 0 1 0 7.07\"/><path d=\"M19.07 4.93a5 5 0 0 1 0 7.07 7.07\"/></svg>");
            assert(d.subrange(0, 4) =~= "<svg"@);
            assert(d.subrange(d.len() - 6, d.len() as int) =~= "</svg>"@);
            assert(d.subrange(95, 116) =~= "stroke=\"currentColor\""@);
            assert(current_color_stroke_at(d, 95));
        },
        ShellIcon::VolumeX => {
            reveal_strlit("<svg xmlns=\"http://www.w3.org/2000/svg\" width=\"24\" height=\"24\" viewBox=\"0 0 24 24\" fill=\"none\" stroke=\"currentColor\" stroke-width=\"1.8\" stroke-linecap=\"round\" stroke-linejoin=\"round\"><polygon points=\"11 5 6 9 2 9 2 15 6 15 11 19 11 5\"/><line x1=\"22\" x2=\"16\" y1=\"9\" y2=\"15\"/><line x1=\"16\" x2=\"22\" y1=\"15\" y2=\"9\"/></svg>");
            assert(d.subrange(0, 4) =~= "<svg"@);
            assert(d.subrange(d.len() - 6, d.len() as int) =~= "</svg>"@);
            assert(d.subrange(95, 116) =~= "stroke=\"currentColor\""@);
            assert(current_color_stroke_at(d, 95));
        },
        ShellIcon::Settings => {
            reveal_strlit("<svg xmlns=\"http://www.w3.org/2000/svg\" width=\"24\" height=\"24\" viewBox=\"0 0 24 24\" fill=\"none\" stroke=\"currentColor\" stroke-width=\"1.8\" stroke-linecap=\"round\" stroke-linejoin=\"round\"><path d=\"M12.22 2h-.44a2 2 0 0 0-2 2v.18a2 2 0 0 1-1 1.73l-.43.25a2 2 0 0 1-2 0l-.15-.08a2 2 0 0 0-2.73.73l-.22.38a2 2 0 0 0 .73 2.73l.15.1a2 2 0 0 1 1 1.72v.51a2 2 0 0 1-1 1.74l-.15.09a2 2 0 0 0-.73 2.73l.22.38a2 2 0 0 0 2.73.73l.15-.08a2 2 0 0 1 2 0l.43.25a2 2 0 0 1 1 1.73V20a2 2 0 0 0 2 2h.44a2 2 0 0 0 2-2v-.18a2 2 0 0 0-2-2v-.18a2 2 0 0 0-1-1.73l-.43-.25a2 2 0 0 1-2 0l.15-.08a2 2 0 0 0 2.73-.73l.22-.38a2 2 0 0 0-.73-2.73l-.15-.1a2 2 0 0 0-1-1.72v-.51a2 2 0 0 1 1-1.74l.15-.09a2 2 0 0 0 .73-2.73l-.22-.38a2 2 0 0 0-2.73-.73l-.15.08a2 2 0 0 1-2 0l-.43-.25a2 2 0 0 1-1-1.73V4a2 2 0 0 0-2-2z\"/><circle cx=\"12\" cy=\"12\" r=\"3\"/></svg>");
            assert(d.subrange(0, 4) =~= "<svg"@);
            assert(d.subrange(d.len() - 6, d.len() as int) =~= "</svg>"@);
            assert(d.subrange(95, 116) =~= "stroke=\"currentColor\""@);
            assert(current_color_stroke_at(d, 95));
        },
        ShellIcon::Play => {
            reveal_strlit("<svg xmlns=\"http://www.w3.org/2000/svg\" width=\"24\" height=\"24\" viewBox=\"0 0 24 24\" fill=\"none\" stroke=\"currentColor\" stroke-width=\"1.8\" stroke-linecap=\"round\" stroke-linejoin=\"round\"><polygon points=\"6 3 20 12 6 21 6 3\"/></svg>");
            assert(d.subrange(0, 4) =~= "<svg"@);
            assert(d.subrange(d.len() - 6, d.len() as int) =~= "</svg>"@);
            assert(d.subrange(95, 116) =~= "stroke=\"currentColor\""@);
            assert(current_color_stroke_at(d, 95));
        },
        ShellIcon::Pause => {
            reveal_strlit("<svg xmlns=\"http://www.w3.org/2000/svg\" width=\"24\" height=\"24\" viewBox=\"0 0 24 24\" fill=\"none\" stroke=\"currentColor\" stroke-width=\"1.8\" stroke-linecap=\"round\" stroke-linejoin=\"round\"><rect width=\"4\" height=\"16\" x=\"6\" y=\"4\"/><rect width=\"4\" height=\"16\" x=\"14\" y=\"4\"/></svg>");
            assert(d.subrange(0, 4) =~= "<svg"@);
            assert(d.subrange(d.len() - 6, d.len() as int) =~= "</svg>"@);
            assert(d.subrange(95, 116) =~= "stroke=\"currentColor\""@);
            assert(current_color_stroke_at(d, 95));
        },
        ShellIcon::ChevronLeft => {
            reveal_strlit("<svg xmlns=\"http://www.w3.org/2000/svg\" width=\"24\" height=\"24\" viewBox=\"0 0 24 24\" fill=\"none\" stroke=\"currentColor\" stroke-width=\"1.8\" stroke-linecap=\"round\" stroke-linejoin=\"round\"><path d=\"m15 18-6-6 6-6\"/></svg>");
            assert(d.subrange(0, 4) =~= "<svg"@);
            assert(d.subrange(d.len() - 6, d.len() as int) =~= "</svg>"@);
            assert(d.subrange(95, 116) =~= "stroke=\"currentColor\""@);
            assert(current_color_stroke_at(d, 95));
        },
        ShellIcon::ChevronRight => {
            reveal_strlit("<svg xmlns=\"http://www.w3.org/2000/svg\" width=\"24\" height=\"24\" viewBox=\"0 0 24 24\" fill=\"none\" stroke=\"currentColor\" stroke-width=\"1.8\" stroke-linecap=\"round\" stroke-linejoin=\"round\"><path d=\"m9 18 6 6-6-6\"/></svg>");
            assert(d.subrange(0, 4) =~= "<svg"@);
            assert(d.subrange(d.len() - 6, d.len() as int) =~= "</svg>"@);
            assert(d.subrange(95, 116) =~= "stroke=\"currentColor\""@);
            assert(current_color_stroke_at(d, 95));
        },
        ShellIcon::ChevronsLeft => {
            reveal_strlit("<svg xmlns=\"http://www.w3.org/2000/svg\" width=\"24\" height=\"24\" viewBox=\"0 0 24 24\" fill=\"none\" stroke=\"currentColor\" stroke-width=\"1.8\" stroke-linecap=\"round\" stroke-linejoin=\"round\"><path d=\"m11 17-5-5 5-5\"/><path d=\"m18 17-5-5 5-5\"/></svg>");
            assert(d.subrange(0, 4) =~= "<svg"@);
            assert(d.subrange(d.len() - 6, d.len() as int) =~= "</svg>"@);
            assert(d.subrange(95, 116) =~= "stroke=\"currentColor\""@);
            assert(current_color_stroke_at(d, 95));
        },
        ShellIcon::ChevronsRight => {
            reveal_strlit("<svg xmlns=\"http://www.w3.org/2000/svg\" width=\"24\" height=\"24\" viewBox=\"0 0 24 24\" fill=\"none\" stroke=\"currentColor\" stroke-width=\"1.8\" stroke-linecap=\"round\" stroke-linejoin=\"round\"><path d=\"m6 17 5 5 5-5\"/><path d=\"m13 17 5 5-5 5\"/></svg>");
            assert(d.subrange(0, 4) =~= "<svg"@);
            assert(d.subrange(d.len() - 6, d.len() as int) =~= "</svg>"@);
            assert(d.subrange(95, 116) =~= "stroke=\"currentColor\""@);
            assert(current_color_stroke_at(d, 95));
        },
        ShellIcon::TrendingUp => {
            reveal_strlit("<svg xmlns=\"http://www.w3.org/2000/svg\" width=\"24\" height=\"24\" viewBox=\"0 0 24 24\" fill=\"none\" stroke=\"currentColor\" stroke-width=\"1.8\" stroke-linecap=\"round\" stroke-linejoin=\"round\"><polyline points=\"22 7 13.5 15.5 8.5 10.5 2 17\"/><polyline points=\"16 7 22 7 22 13\"/></svg>");
            assert(d.subrange(0, 4) =~= "<svg"@);
            assert(d.subrange(d.len() - 6, d.len() as int) =~= "</svg>"@);
            assert(d.subrange(95, 116) =~= "stroke=\"currentColor\""@);
            assert(current_color_stroke_at(d, 95));
        },
        ShellIcon::GitBranch => {
            reveal_strlit("<svg xmlns=\"http://www.w3.org/2000/svg\" width=\"24\" height=\"24\" viewBox=\"0 0 24 24\" fill=\"none\" stroke=\"currentColor\" stroke-width=\"1.8\" stroke-linecap=\"round\" stroke-linejoin=\"round\"><line x1=\"6\" x2=\"6\" y1=\"3\" y2=\"15\"/><circle cx=\"18\" cy=\"6\" r=\"3\"/><circle cx=\"6\" cy=\"18\" r=\"3\"/><path d=\"M18 9a9 9 0 0 1-9 9\"/></svg>");
            assert(d.subrange(0, 4) =~= "<svg"@);
            assert(d.subrange(d.len() - 6, d.len() as int) =~= "</svg>"@);
            assert(d.subrange(95, 116) =~= "stroke=\"currentColor\""@);
            assert(current_color_stroke_at(d, 95));
        },
        ShellIcon::Terminal => {
            reveal_strlit("<svg xmlns=\"http://www.w3.org/2000/svg\" width=\"24\" height=\"24\" viewBox=\"0 0 24 24\" fill=\"none\" stroke=\"currentColor\" stroke-width=\"1.8\" stroke-linecap=\"round\" stroke-linejoin=\"round\"><polyline points=\"4 17 10 11 4 5\"/><line x1=\"12\" x2=\"20\" y1=\"19\" y2=\"19\"/></svg>");
            assert(d.subrange(0, 4) =~= "<svg"@);
            assert(d.subrange(d.len() - 6, d.len() as int) =~= "</svg>"@);
            assert(d.subrange(95, 116) =~= "stroke=\"currentColor\""@);
            assert(current_color_stroke_at(d, 95));
        },
        ShellIcon::Cpu => {
            reveal_strlit("<svg xmlns=\"http://www.w3.org/2000/svg\" width=\"24\" height=\"24\" viewBox=\"0 0 24 24\" fill=\"none\" stroke=\"currentColor\" stroke-width=\"1.8\" stroke-linecap=\"round\" stroke-linejoin=\"round\"><rect width=\"16\" height=\"16\" x=\"4\" y=\"4\" rx=\"2\"/><rect width=\"6\" height=\"6\" x=\"9\" y=\"9\" rx=\"1\"/><path d=\"M15 2v2\"/><path d=\"M15 20v2\"/><path d=\"M2 15h2\"/><path d=\"M2 9h2\"/><path d=\"M20 15h2\"/><path d=\"M20 9h2\"/><path d=\"M9 2v2\"/><path d=\"M9 20v2\"/></svg>");
            assert(d.subrange(0, 4) =~= "<svg"@);
            assert(d.subrange(d.len() - 6, d.len() as int) =~= "</svg>"@);
            assert(d.subrange(95, 116) =~= "stroke=\"currentColor\""@);
            assert(current_color_stroke_at(d, 95));
        },
        ShellIcon::Sparkles => {
            reveal_strlit("<svg xmlns=\"http://www.w3.org/2000/svg\" width=\"24\" height=\"24\" viewBox=\"0 0 24 24\" fill=\"none\" stroke=\"currentColor\" stroke-width=\"1.8\" stroke-linecap=\"round\" stroke-linejoin=\"round\"><path d=\"m12 3-1.912 5.813a2 2 0 0 1-1.275 1.275L3 12l5.813 1.912a2 2 0 0 1 1.275 1.275L12 21l1.912-5.813a2 2 0 0 1 1.275-1.275L21 12l-5.813-1.912a2 2 0 0 1-1.275-1.275L12 3Z\"/></svg>");
            assert(d.subrange(0, 4) =~= "<svg"@);
            assert(d.subrange(d.len() - 6, d.len() as int) =~= "</svg>"@);
            assert(d.subrange(95, 116) =~= "stroke=\"currentColor\""@);
            assert(current_color_stroke_at(d, 95));
        },
        ShellIcon::Share => {
            reveal_strlit("<svg xmlns=\"http://www.w3.org/2000/svg\" width=\"24\" height=\"24\" viewBox=\"0 0 24 24\" fill=\"none\" stroke=\"currentColor\" stroke-width=\"1.8\" stroke-linecap=\"round\" stroke-linejoin=\"round\"><circle cx=\"18\" cy=\"5\" r=\"3\"/><circle cx=\"6\" cy=\"12\" r=\"3\"/><circle cx=\"18\" cy=\"19\" r=\"3\"/><line x1=\"8.59\" x2=\"15.42\" y1=\"13.51\" y2=\"17.49\"/><line x1=\"15.41\" x2=\"8.59\" y1=\"6.51\" y2=\"10.49\"/></svg>");
            assert(d.subrange(0, 4) =~= "<svg"@);
            assert(d.subrange(d.len() - 6, d.len() as int) =~= "</svg>"@);
            assert(d.subrange(95, 116) =~= "stroke=\"currentColor\""@);
            assert(current_color_stroke_at(d, 95));
        },
        ShellIcon::Info => {
            reveal_strlit("<svg xmlns=\"http://www.w3.org/2000/svg\" width=\"24\" height=\"24\" viewBox=\"0 0 24 24\" fill=\"none\" stroke=\"currentColor\" stroke-width=\"1.8\" stroke-linecap=\"round\" stroke-linejoin=\"round\"><circle cx=\"12\" cy=\"12\" r=\"10\"/><path d=\"M12 16v-4\"/><path d=\"M12 8h.01\"/></svg>");
            assert(d.subrange(0, 4) =~= "<svg"@);
            assert(d.subrange(d.len() - 6, d.len() as int) =~= "</svg>"@);
            assert(d.subrange(95, 116) =~= "stroke=\"currentColor\""@);
            assert(current_color_stroke_at(d, 95));
        },
        ShellIcon::Check => {
            reveal_strlit("<svg xmlns=\"http://www.w3.org/2000/svg\" width=\"24\" height=\"24\" viewBox=\"0 0 24 24\" fill=\"none\" stroke=\"currentColor\" stroke-width=\"1.8\" stroke-linecap=\"round\" stroke-linejoin=\"round\"><polyline points=\"20 6 9 17 4 12\"/></svg>");
            assert(d.subrange(0, 4) =~= "<svg"@);
            assert(d.subrange(d.len() - 6, d.len() as int) =~= "</svg>"@);
            assert(d.subrange(95, 116) =~= "stroke=\"currentColor\""@);
            assert(current_color_stroke_at(d, 95));
        },
        ShellIcon::RefreshCw => {
            reveal_strlit("<svg xmlns=\"http://www.w3.org/2000/svg\" width=\"24\" height=\"24\" viewBox=\"0 0 24 24\" fill=\"none\" stroke=\"currentColor\" stroke-width=\"1.8\" stroke-linecap=\"round\" stroke-linejoin=\"round\"><path d=\"M3 12a9 9 0 0 1 9-9 9.75 9.75 0 0 1 6.74 2.74L21 8\"/><path d=\"M21 3v5h-5\"/><path d=\"M21 12a9 9 0 0 1-9 9 9.75 9.75 0 0 1-6.74-2.74L3 16\"/><path d=\"M16 16h5v5\"/></svg>");
            assert(d.subrange(0, 4) =~= "<svg"@);
            assert(d.subrange(d.len() - 6, d.len() as int) =~= "</svg>"@);
            assert(d.subrange(95, 116) =~= "stroke=\"currentColor\""@);
            assert(current_color_stroke_at(d, 95));
        },
        ShellIcon::Upload => {
            reveal_strlit("<svg xmlns=\"http://www.w3.org/2000/svg\" width=\"24\" height=\"24\" viewBox=\"0 0 24 24\" fill=\"none\" stroke=\"currentColor\" stroke-width=\"1.8\" stroke-linecap=\"round\" stroke-linejoin=\"round\"><path d=\"M21 15v4a2 2 0 0 1-2 2H5a2 2 0 0 1-2-2v-4\"/><polyline points=\"17 8 12 3 7 8\"/><line x1=\"12\" x2=\"15\" y1=\"3\" y2=\"15\"/></svg>");
            assert(d.subrange(0, 4) =~= "<svg"@);
            assert(d.subrange(d.len() - 6, d.len() as int) =~= "</svg>"@);
            assert(d.subrange(95, 116) =~= "stroke=\"currentColor\""@);
            assert(current_color_stroke_at(d, 95));
        },
        ShellIcon::PanelLeft => {
            reveal_strlit("<svg xmlns=\"http://www.w3.org/2000/svg\" width=\"24\" height=\"24\" viewBox=\"0 0 24 24\" fill=\"none\" stroke=\"currentColor\" stroke-width=\"1.8\" stroke-linecap=\"round\" stroke-linejoin=\"round\"><rect width=\"18\" height=\"18\" x=\"3\" y=\"3\" rx=\"2\"/><path d=\"M9 3v18\"/></svg>");
            assert(d.subrange(0, 4) =~= "<svg"@);
            assert(d.subrange(d.len() - 6, d.len() as int) =~= "</svg>"@);
            assert(d.subrange(95, 116) =~= "stroke=\"currentColor\""@);
            assert(current_color_stroke_at(d, 95));
        },
        ShellIcon::PanelRight => {
            reveal_strlit("<svg xmlns=\"http://www.w3.org/2000/svg\" width=\"24\" height=\"24\" viewBox=\"0 0 24 24\" fill=\"none\" stroke=\"currentColor\" stroke-width=\"1.8\" stroke-linecap=\"round\" stroke-linejoin=\"round\"><rect width=\"18\" height=\"18\" x=\"3\" y=\"3\" rx=\"2\"/><path d=\"M15 3v18\"/></svg>");
            assert(d.subrange(0, 4) =~= "<svg"@);
            assert(d.subrange(d.len() - 6, d.len() as int) =~= "</svg>"@);
            assert(d.subrange(95, 116) =~= "stroke=\"currentColor\""@);
            assert(current_color_stroke_at(d, 95));
        },
        ShellIcon::PanelBottom => {
            reveal_strlit("<svg xmlns=\"http://www.w3.org/2000/svg\" width=\"24\" height=\"24\" viewBox=\"0 0 24 24\" fill=\"none\" stroke=\"currentColor\" stroke-width=\"1.8\" stroke-linecap=\"round\" stroke-linejoin=\"round\"><rect width=\"18\" height=\"18\" x=\"3\" y=\"3\" rx=\"2\"/><path d=\"M3 15h18\"/></svg>");
            assert(d.subrange(0, 4) =~= "<svg"@);
            assert(d.subrange(d.len() - 6, d.len() as int) =~= "</svg>"@);
            assert(d.subrange(95, 116) =~= "stroke=\"currentColor\""@);
            assert(current_color_stroke_at(d, 95));
        },
        ShellIcon::AlertTriangle => {
            reveal_strlit("<svg xmlns=\"http://www.w3.org/2000/svg\" width=\"24\" height=\"24\" viewBox=\"0 0 24 24\" fill=\"none\" stroke=\"currentColor\" stroke-width=\"1.8\" stroke-linecap=\"round\" stroke-linejoin=\"round\"><path d=\"m21.73 18-8-14a2 2 0 0 0-3.48 0l-8 14A2 2 0 0 0 4 21h16a2 2 0 0 0 1.73-3Z\"/><path d=\"M12 9v4\"/><path d=\"M12 17h.01\"/></svg>");
            assert(d.subrange(0, 4) =~= "<svg"@);
            assert(d.subrange(d.len() - 6, d.len() as int) =~= "</svg>"@);
            assert(d.subrange(95, 116) =~= "stroke=\"currentColor\""@);
            assert(current_color_stroke_at(d, 95));
        },
        ShellIcon::Lightbulb => {
            reveal_strlit("<svg xmlns=\"http://www.w3.org/2000/svg\" width=\"24\" height=\"24\" viewBox=\"0 0 24 24\" fill=\"none\" stroke=\"currentColor\" stroke-width=\"1.8\" stroke-linecap=\"round\" stroke-linejoin=\"round\"><path d=\"M15 14c.2-1 .7-1.7 1.5-2.5 1-.9 1.5-2.2 1.5-3.5A6 6 0 0 0 6 8c0 1 .2 2.2 1.5 3.5.7.7 1.3 1.5 1.5 2.5\"/><path d=\"M9 18h6\"/><path d=\"M10 22h4\"/></svg>");
            assert(d.subrange(0, 4) =~= "<svg"@);
            assert(d.subrange(d.len() - 6, d.len() as int) =~= "</svg>"@);
            assert(d.subrange(95, 116) =~= "stroke=\"currentColor\""@);
            assert(current_color_stroke_at(d, 95));
        },
        ShellIcon::Library => {
            reveal_strlit("<svg xmlns=\"http://www.w3.org/2000/svg\" width=\"24\" height=\"24\" viewBox=\"0 0 24 24\" fill=\"none\" stroke=\"currentColor\" stroke-width=\"1.8\" stroke-linecap=\"round\" stroke-linejoin=\"round\"><path d=\"m16 6 4 14\"/><path d=\"M12 6v14\"/><path d=\"M8 8v12\"/><path d=\"M4 4v16\"/></svg>");
            assert(d.subrange(0, 4) =~= "<svg"@);
            assert(d.subrange(d.len() - 6, d.len() as int) =~= "</svg>"@);
            assert(d.subrange(95, 116) =~= "stroke=\"currentColor\""@);
            assert(current_color_stroke_at(d, 95));
        },
        ShellIcon::Film => {
            reveal_strlit("<svg xmlns=\"http://www.w3.org/2000/svg\" width=\"24\" height=\"24\" viewBox=\"0 0 24 24\" fill=\"none\" stroke=\"currentColor\" stroke-width=\"1.8\" stroke-linecap=\"round\" stroke-linejoin=\"round\"><rect width=\"18\" height=\"18\" x=\"3\" y=\"3\" rx=\"2\"/><path d=\"M7 3v18\"/><path d=\"M3 7.5h4\"/><path d=\"M3 12h18\"/><path d=\"M3 16.5h4\"/><path d=\"M17 3v18\"/><path d=\"M17 7.5h4\"/><path d=\"M17 16.5h4\"/></svg>");
            assert(d.subrange(0, 4) =~= "<svg"@);
            assert(d.subrange(d.len() - 6, d.len() as int) =~= "</svg>"@);
            assert(d.subrange(95, 116) =~= "stroke=\"currentColor\""@);
            assert(current_color_stroke_at(d, 95));
        },
        ShellIcon::Globe => {
            reveal_strlit("<svg xmlns=\"http://www.w3.org/2000/svg\" width=\"24\" height=\"24\" viewBox=\"0 0 24 24\" fill=\"none\" stroke=\"currentColor\" stroke-width=\"1.8\" stroke-linecap=\"round\" stroke-linejoin=\"round\"><circle cx=\"12\" cy=\"12\" r=\"10\"/><path d=\"M12 2a14.5 14.5 0 0 0 0 20 14.5 14.5 0 0 0 0-20\"/><path d=\"M2 12h20\"/></svg>");
            assert(d.subrange(0, 4) =~= "<svg"@);
            assert(d.subrange(d.len() - 6, d.len() as int) =~= "</svg>"@);
            assert(d.subrange(95, 116) =~= "stroke=\"currentColor\""@);
            assert(current_color_stroke_at(d, 95));
        },
        ShellIcon::Dice => {
            reveal_strlit("<svg xmlns=\"http://www.w3.org/2000/svg\" width=\"24\" height=\"24\" viewBox=\"0 0 24 24\" fill=\"none\" stroke=\"currentColor\" stroke-width=\"1.8\" stroke-linecap=\"round\" stroke-linejoin=\"round\"><rect width=\"18\" height=\"18\" x=\"3\" y=\"3\" rx=\"2\" ry=\"2\"/><path d=\"M16 8h.01\"/><path d=\"M8 8h.01\"/><path d=\"M8 16h.01\"/><path d=\"M16 16h.01\"/><path d=\"M12 12h.01\"/></svg>");
            assert(d.subrange(0, 4) =~= "<svg"@);
            assert(d.subrange(d.len() - 6, d.len() as int) =~= "</svg>"@);
            assert(d.subrange(95, 116) =~= "stroke=\"currentColor\""@);
            assert(current_color_stroke_at(d, 95));
        },
        ShellIcon::Puzzle => {
            reveal_strlit("<svg xmlns=\"http://www.w3.org/2000/svg\" width=\"24\" height=\"24\" viewBox=\"0 0 24 24\" fill=\"none\" stroke=\"currentColor\" stroke-width=\"1.8\" stroke-linecap=\"round\" stroke-linejoin=\"round\"><path d=\"M19.439 7.85c-.049.322.059.648.289.878l1.568 1.568c.47.47.706 1.087.706 1.704s-.235 1.233-.706 1.704l-1.611 1.611a.98.98 0 0 1-.837.276c-.47-.07-.802-.48-.968-.925a2.501 2.501 0 1 0-3.214 3.214c.446.166.855.497.925.968a.979.979 0 0 1-.276.837l-1.61 1.61a2.404 2.404 0 0 1-1.705.707 2.402 2.402 0 0 1-1.704-.706l-1.568-1.568a1.026 1.026 0 0 0-.877-.29c-.493.074-.84.504-1.02.968a2.5 2.5 0 1 1-3.237-3.237c.464-.18.894-.527.967-1.02a1.026 1.026 0 0 0-.289-.877l-1.568-1.568A2.402 2.402 0 0 1 1.998 12c0-.617.236-1.234.706-1.704L4.23 8.77c.24-.24.581-.353.917-.303.515.077.877.528 1.073 1.01a2.5 2.5 0 1 0 3.259-3.259c-.482-.196-.933-.558-1.01-1.073-.05-.336.062-.676.303-.917l1.525-1.525A2.402 2.402 0 0 1 12 1.998c.617 0 1.234.236 1.704.706l1.568 1.568c.23.23.556.338.877.29.493-.074.84-.504 1.02-.968a2.5 2.5 0 1 1 3.237 3.237c-.464.18-.894.527-.967 1.02Z\"/></svg>");
            assert(d.subrange(0, 4) =~= "<svg"@);
            assert(d.subrange(d.len() - 6, d.len() as int) =~= "</svg>"@);
            assert(d.subrange(95, 116) =~= "stroke=\"currentColor\""@);
            assert(current_color_stroke_at(d, 95));
        },
        ShellIcon::Grid => {
            reveal_strlit("<svg xmlns=\"http://www.w3.org/2000/svg\" width=\"24\" height=\"24\" viewBox=\"0 0 24 24\" fill=\"none\" stroke=\"currentColor\" stroke-width=\"1.8\" stroke-linecap=\"round\" stroke-linejoin=\"round\"><rect width=\"18\" height=\"18\" x=\"3\" y=\"3\" rx=\"2\"/><path d=\"M3 9h18\"/><path d=\"M3 15h18\"/><path d=\"M9 3v18\"/><path d=\"M15 3v18\"/></svg>");
            assert(d.subrange(0, 4) =~= "<svg"@);
            assert(d.subrange(d.len() - 6, d.len() as int) =~= "</svg>"@);
            assert(d.subrange(95, 116) =~= "stroke=\"currentColor\""@);
            assert(current_color_stroke_at(d, 95));
        },
        ShellIcon::Message => {
            reveal_strlit("<svg xmlns=\"http://www.w3.org/2000/svg\" width=\"24\" height=\"24\" viewBox=\"0 0 24 24\" fill=\"none\" stroke=\"currentColor\" stroke-width=\"1.8\" stroke-linecap=\"round\" stroke-linejoin=\"round\"><path d=\"M21 15a2 2 0 0 1-2 2H7l-4 4V5a2 2 0 0 1 2-2h14a2 2 0 0 1 2 2z\"/></svg>");
            assert(d.subrange(0, 4) =~= "<svg"@);
            assert(d.subrange(d.len() - 6, d.len() as int) =~= "</svg>"@);
            assert(d.subrange(95, 116) =~= "stroke=\"currentColor\""@);
            assert(current_color_stroke_at(d, 95));
        },
        ShellIcon::BarChart => {
            reveal_strlit("<svg xmlns=\"http://www.w3.org/2000/svg\" width=\"24\" height=\"24\" viewBox=\"0 0 24 24\" fill=\"none\" stroke=\"currentColor\" stroke-width=\"1.8\" stroke-linecap=\"round\" stroke-linejoin=\"round\"><line x1=\"12\" x2=\"12\" y1=\"20\" y2=\"10\"/><line x1=\"18\" x2=\"18\" y1=\"20\" y2=\"4\"/><line x1=\"6\" x2=\"6\" y1=\"20\" y2=\"16\"/></svg>");
            assert(d.subrange(0, 4) =~= "<svg"@);
            assert(d.subrange(d.len() - 6, d.len() as int) =~= "</svg>"@);
            assert(d.subrange(95, 116) =~= "stroke=\"currentColor\""@);
            assert(current_color_stroke_at(d, 95));
        },
        ShellIcon::Plug => {
            reveal_strlit("<svg xmlns=\"http://www.w3.org/2000/svg\" width=\"24\" height=\"24\" viewBox=\"0 0 24 24\" fill=\"none\" stroke=\"currentColor\" stroke-width=\"1.8\" stroke-linecap=\"round\" stroke-linejoin=\"round\"><path d=\"M12 22v-5\"/><path d=\"M9 8V2\"/><path d=\"M15 8V2\"/><path d=\"M18 8v5a4 4 0 0 1-4 4h-4a4 4 0 0 1-4-4V8Z\"/></svg>");
            assert(d.subrange(0, 4) =~= "<svg"@);
            assert(d.subrange(d.len() - 6, d.len() as int) =~= "</svg>"@);
            assert(d.subrange(95, 116) =~= "stroke=\"currentColor\""@);
            assert(current_color_stroke_at(d, 95));
        },
        ShellIcon::Stop => {
            reveal_strlit("<svg xmlns=\"http://www.w3.org/2000/svg\" width=\"24\" height=\"24\" viewBox=\"0 0 24 24\" fill=\"none\" stroke=\"currentColor\" stroke-width=\"1.8\" stroke-linecap=\"round\" stroke-linejoin=\"round\"><rect width=\"14\" height=\"14\" x=\"5\" y=\"5\" rx=\"2\"/></svg>");
            assert(d.subrange(0, 4) =~= "<svg"@);
            assert(d.subrange(d.len() - 6, d.len() as int) =~= "</svg>"@);
            assert(d.subrange(95, 116) =~= "stroke=\"currentColor\""@);
            assert(current_color_stroke_at(d, 95));
        },
        ShellIcon::Flag => {
            reveal_strlit("<svg xmlns=\"http://www.w3.org/2000/svg\" width=\"24\" height=\"24\" viewBox=\"0 0 24 24\" fill=\"none\" stroke=\"currentColor\" stroke-width=\"1.8\" stroke-linecap=\"round\" stroke-linejoin=\"round\"><path d=\"M4 15s1-1 4-1 5 2 8 2 4-1 4-1V3s-1 1-4 1-5-2-8-2-4 1-4 1z\"/><line x1=\"4\" x2=\"4\" y1=\"22\" y2=\"15\"/></svg>");
            assert(d.subrange(0, 4) =~= "<svg"@);
            assert(d.subrange(d.len() - 6, d.len() as int) =~= "</svg>"@);
            assert(d.subrange(95, 116) =~= "stroke=\"currentColor\""@);
            assert(current_color_stroke_at(d, 95));
        },
        ShellIcon::Eye => {
            reveal_strlit("<svg xmlns=\"http://www.w3.org/2000/svg\" width=\"24\" height=\"24\" viewBox=\"0 0 24 24\" fill=\"none\" stroke=\"currentColor\" stroke-width=\"1.8\" stroke-linecap=\"round\" stroke-linejoin=\"round\"><path d=\"M2 12s3-7 10-7 10 7 10 7-3 7-10 7-10-7-10-7Z\"/><circle cx=\"12\" cy=\"12\" r=\"3\"/></svg>");
            assert(d.subrange(0, 4) =~= "<svg"@);
            assert(d.subrange(d.len() - 6, d.len() as int) =~= "</svg>"@);
            assert(d.subrange(95, 116) =~= "stroke=\"currentColor\""@);
            assert(current_color_stroke_at(d, 95));
        },
        ShellIcon::Close => {
            reveal_strlit("<svg xmlns=\"http://www.w3.org/2000/svg\" width=\"24\" height=\"24\" viewBox=\"0 0 24 24\" fill=\"none\" stroke=\"currentColor\" stroke-width=\"1.8\" stroke-linecap=\"round\" stroke-linejoin=\"round\"><path d=\"M18 6 6 18\"/><path d=\"m6 6 12 12\"/></svg>");
            assert(d.subrange(0, 4) =~= "<svg"@);
            assert(d.subrange(d.len() - 6, d.len() as int) =~= "</svg>"@);
            assert(d.subrange(95, 116) =~= "stroke=\"currentColor\""@);
            assert(current_color_stroke_at(d, 95));
        },
        ShellIcon::Magnify => {
            reveal_strlit("<svg xmlns=\"http://www.w3.org/2000/svg\" width=\"24\" height=\"24\" viewBox=\"0 0 24 24\" fill=\"none\" stroke=\"currentColor\" stroke-width=\"1.8\" stroke-linecap=\"round\" stroke-linejoin=\"round\"><circle cx=\"11\" cy=\"11\" r=\"8\"/><path d=\"m21 21-4.3-4.3\"/></svg>");
            assert(d.subrange(0, 4) =~= "<svg"@);
            assert(d.subrange(d.len() - 6, d.len() as int) =~= "</svg>"@);
            assert(d.subrange(95, 116) =~= "stroke=\"currentColor\""@);
            assert(current_color_stroke_at(d, 95));
        },
        ShellIcon::Save => {
            reveal_strlit("<svg xmlns=\"http://www.w3.org/2000/svg\" width=\"24\" height=\"24\" viewBox=\"0 0 24 24\" fill=\"none\" stroke=\"currentColor\" stroke-width=\"1.8\" stroke-linecap=\"round\" stroke-linejoin=\"round\"><path d=\"M19 21H5a2 2 0 0 1-2-2V5a2 2 0 0 1 2-2h11l5 5v11a2 2 0 0 1-2 2z\"/><polyline points=\"17 21 17 13 7 13 7 21\"/><polyline points=\"7 3 7 8 15 8\"/></svg>");
            assert(d.subrange(0, 4) =~= "<svg"@);
            assert(d.subrange(d.len() - 6, d.len() as int) =~= "</svg>"@);
            assert(d.subrange(95, 116) =~= "stroke=\"currentColor\""@);
            assert(current_color_stroke_at(d, 95));
        },
        ShellIcon::Image => {
            reveal_strlit("<svg xmlns=\"http://www.w3.org/2000/svg\" width=\"24\" height=\"24\" viewBox=\"0 0 24 24\" fill=\"none\" stroke=\"currentColor\" stroke-width=\"1.8\" stroke-linecap=\"round\" stroke-linejoin=\"round\"><rect width=\"18\" height=\"18\" x=\"3\" y=\"3\" rx=\"2\" ry=\"2\"/><circle cx=\"9\" cy=\"9\" r=\"2\"/><path d=\"m21 15-3.086-3.086a2 2 0 0 0-2.828 0L6 21\"/></svg>");
            assert(d.subrange(0, 4) =~= "<svg"@);
            assert(d.subrange(d.len() - 6, d.len() as int) =~= "</svg>"@);
            assert(d.subrange(95, 116) =~= "stroke=\"currentColor\""@);
            assert(current_color_stroke_at(d, 95));
        },
        ShellIcon::Target => {
            reveal_strlit("<svg xmlns=\"http://www.w3.org/2000/svg\" width=\"24\" height=\"24\" viewBox=\"0 0 24 24\" fill=\"none\" stroke=\"currentColor\" stroke-width=\"1.8\" stroke-linecap=\"round\" stroke-linejoin=\"round\"><circle cx=\"12\" cy=\"12\" r=\"10\"/><circle cx=\"12\" cy=\"12\" r=\"6\"/><circle cx=\"12\" cy=\"12\" r=\"2\"/></svg>");
            assert(d.subrange(0, 4) =~= "<svg"@);
            assert(d.subrange(d.len() - 6, d.len() as int) =~= "</svg>"@);
            assert(d.subrange(95, 116) =~= "stroke=\"currentColor\""@);
            assert(current_color_stroke_at(d, 95));
        },
        ShellIcon::Pin => {
            reveal_strlit("<svg xmlns=\"http://www.w3.org/2000/svg\" width=\"24\" height=\"24\" viewBox=\"0 0 24 24\" fill=\"none\" stroke=\"currentColor\" stroke-width=\"1.8\" stroke-linecap=\"round\" stroke-linejoin=\"round\"><path d=\"M12 17v5\"/><path d=\"M9 10.76a2 2 0 0 1-1.11 1.79l-1.78.9A2 2 0 0 0 5 15.24V16a1 1 0 0 0 1 1h12a1 1 0 0 0 1-1v-.76a2 2 0 0 0-1.11-1.79l-1.78-.9A2 2 0 0 1 15 10.76V6h1a2 2 0 0 0 0-4H8a2 2 0 0 0 0 4h1z\"/></svg>");
            assert(d.subrange(0, 4) =~= "<svg"@);
            assert(d.subrange(d.len() - 6, d.len() as int) =~= "</svg>"@);
            assert(d.subrange(95, 116) =~= "stroke=\"currentColor\""@);
            assert(current_color_stroke_at(d, 95));
        },
        ShellIcon::Menu => {
            reveal_strlit("<svg xmlns=\"http://www.w3.org/2000/svg\" width=\"24\" height=\"24\" viewBox=\"0 0 24 24\" fill=\"none\" stroke=\"currentColor\" stroke-width=\"1.8\" stroke-linecap=\"round\" stroke-linejoin=\"round\"><line x1=\"4\" x2=\"20\" y1=\"6\" y2=\"6\"/><line x1=\"4\" x2=\"20\" y1=\"12\" y2=\"12\"/><line x1=\"4\" x2=\"20\" y1=\"18\" y2=\"18\"/></svg>");
            assert(d.subrange(0, 4) =~= "<svg"@);
            assert(d.subrange(d.len() - 6, d.len() as int) =~= "</svg>"@);
            assert(d.subrange(95, 116) =~= "stroke=\"currentColor\""@);
            assert(current_color_stroke_at(d, 95));
        },
    }
}

}

verus! {

proof fn lemma_icon_at_path_found(icons: Seq<ShellIcon>, p: Seq<char>)
    ensures
        icon_at_path(icons, p) matches Some(i) ==> icons.contains(i) && i.spec_path()@ == p,
    decreases icons.len(),
{
    if icons.len() > 0 && icons[0].spec_path()@ != p {
        lemma_icon_at_path_found(icons.drop_first(), p);
        if let Some(i) = icon_at_path(icons.drop_first(), p) {
            let k = choose|k: int| 0 <= k < icons.drop_first().len() && icons.drop_first()[k] == i;
            assert(icons[k + 1] == i);
        }
    } else if icons.len() > 0 {
        assert(icons[0] == icons[0]);
    }
}

/// `load` (through `lookup`) serves exactly the listed icons' paths, each
/// with the document of the icon whose path it is.
pub proof fn law_load_serves_listed_paths(p: Seq<char>)
    ensures
        spec_lookup(p) is Some <==> exists|i: ShellIcon| #[trigger] all_icons().contains(i) && i.spec_path()@ == p,
        spec_lookup(p) matches Some(svg) ==> exists|i: ShellIcon|
            #[trigger] all_icons().contains(i) && i.spec_path()@ == p && svg == i.spec_svg(),
{
    lemma_icon_at_path_found(all_icons(), p);
    if exists|i: ShellIcon| #[trigger] all_icons().contains(i) && i.spec_path()@ == p {
        let i = choose|i: ShellIcon| #[trigger] all_icons().contains(i) && i.spec_path()@ == p;
        law_icon_paths_served(i);
    }
}

}

verus! {

/// UTF-8 encodes a concatenation piece by piece.
proof fn lemma_encode_utf8_concat(a: Seq<char>, b: Seq<char>)
    ensures
        encode_utf8(a + b) == encode_utf8(a) + encode_utf8(b),
    decreases a.len(),
{
    if a.len() == 0 {
        assert(a + b =~= b);
        assert(encode_utf8(a) + encode_utf8(b) =~= encode_utf8(b));
    } else {
        assert((a + b).drop_first() =~= a.drop_first() + b);
        assert((a + b)[0] == a[0]);
        lemma_encode_utf8_concat(a.drop_first(), b);
        assert(encode_utf8(a + b) =~= encode_utf8(a) + encode_utf8(b));
    }
}

/// `x` occurs in `b` starting at byte `k`.
pub open spec fn bytes_at(b: Seq<u8>, x: Seq<u8>, k: int) -> bool {
    0 <= k && k + x.len() <= b.len() && b.subrange(k, k + x.len()) == x
}

/// The encoding of `x` stands in that of `pre + x + post` right after the
/// encoding of `pre`.
proof fn lemma_bytes_at_split(pre: Seq<char>, x: Seq<char>, post: Seq<char>)
    ensures
        bytes_at(encode_utf8(pre + x + post), encode_utf8(x), encode_utf8(pre).len() as int),
        encode_utf8(pre + x + post).len() == encode_utf8(pre).len() + encode_utf8(x).len()
            + encode_utf8(post).len(),
{
    lemma_encode_utf8_concat(pre + x, post);
    lemma_encode_utf8_concat(pre, x);
    let b = encode_utf8(pre + x + post);
    let kb = encode_utf8(pre).len() as int;
    assert(b =~= encode_utf8(pre) + encode_utf8(x) + encode_utf8(post));
    assert(b.subrange(kb, kb + encode_utf8(x).len()) =~= encode_utf8(x));
}

/// A document that starts with `<svg`, ends with `</svg>` and sets
/// `stroke="currentColor"` does so in its UTF-8 bytes too.
#[verifier::spinoff_prover]
proof fn lemma_svg_bytes(d: Seq<char>)
    requires
        d.len() >= 6,
        d.subrange(0, 4) == "<svg"@,
        d.subrange(d.len() - 6, d.len() as int) == "</svg>"@,
        exists|k: int| #[trigger] current_color_stroke_at(d, k),
    ensures
        bytes_at(encode_utf8(d), encode_utf8("<svg"@), 0),
        bytes_at(encode_utf8(d), encode_utf8("</svg>"@), encode_utf8(d).len() - encode_utf8("</svg>"@).len()),
        exists|k: int| #[trigger] bytes_at(encode_utf8(d), encode_utf8("stroke=\"currentColor\""@), k),
{
    let n = d.len() as int;
    let empty = Seq::<char>::empty();
    assert(encode_utf8(empty).len() == 0);
    assert(d =~= empty + "<svg"@ + d.subrange(4, n));
    lemma_bytes_at_split(empty, "<svg"@, d.subrange(4, n));
    assert(d =~= d.subrange(0, n - 6) + "</svg>"@ + empty);
    lemma_bytes_at_split(d.subrange(0, n - 6), "</svg>"@, empty);
    let k = choose|k: int| #[trigger] current_color_stroke_at(d, k);
    let stroke = "stroke=\"currentColor\""@;
    assert(d =~= d.subrange(0, k) + stroke + d.subrange(k + 21, n));
    lemma_bytes_at_split(d.subrange(0, k), stroke, d.subrange(k + 21, n));
    assert(bytes_at(encode_utf8(d), encode_utf8(stroke), encode_utf8(d.subrange(0, k)).len() as int));
}

/// The bytes of every icon document, as `load` serves them, begin with the
/// UTF-8 encoding of `<svg`, end with that of `</svg>` and hold that of
/// `stroke="currentColor"`.
pub proof fn law_icon_bytes_are_svg(i: ShellIcon)
    ensures
        bytes_at(i.spec_svg().spec_bytes(), encode_utf8("<svg"@), 0),
        bytes_at(
            i.spec_svg().spec_bytes(),
            encode_utf8("</svg>"@),
            i.spec_svg().spec_bytes().len() - encode_utf8("</svg>"@).len(),
        ),
        exists|k: int| #[trigger]
            bytes_at(i.spec_svg().spec_bytes(), encode_utf8("stroke=\"currentColor\""@), k),
{
    law_icon_documents_are_svg(i);
    lemma_svg_bytes(i.spec_svg()@);
}

}
