//! Visual theme model: named colors as plain strings, the built-in
//! defaults, and the text of a freshly generated theme file. Turning a
//! name into a terminal color is the renderer's business.

use vstd::prelude::*;
use vstd::string::StringExecFns;

verus! {

/// A color written as a name or `#RRGGBB`.
#[derive(Debug, Clone)]
pub struct ColorDef(pub String);

/// A color from its written form.
pub fn def(s: &str) -> (r: ColorDef)
    ensures
        r.0@ == s@,
{
    ColorDef(String::from_str(s))
}

/// Every configurable color of the interface.
#[derive(Debug, Clone)]
pub struct Theme {
    pub app_background: ColorDef,
    pub border: ColorDef,
    pub header: ColorDef,
    pub highlight: ColorDef,
    pub text: ColorDef,
    pub list_border_active: ColorDef,
    pub list_border_inactive: ColorDef,
    pub list_text_selected_fg: ColorDef,
    pub list_text_selected_bg: ColorDef,
    pub list_text_normal: ColorDef,
    pub preview_border_active: ColorDef,
    pub preview_border_inactive: ColorDef,
    pub preview_text: ColorDef,
    pub search_match: ColorDef,
    pub help_text: ColorDef,
    pub editor_bg: ColorDef,
    pub editor_fg: ColorDef,
    pub editor_cursor: ColorDef,
    pub editor_line_number: ColorDef,
    pub md_header_fg: ColorDef,
    pub md_code_bg: ColorDef,
    pub md_list_marker: ColorDef,
    pub editor_header: ColorDef,
    pub editor_list: ColorDef,
    pub editor_checkbox: ColorDef,
    pub editor_checkbox_checked: ColorDef,
}

impl Default for Theme {
    fn default() -> (r: Self)
        ensures
            r.app_background.0@ == "black"@,
            r.border.0@ == "cyan"@,
            r.header.0@ == "yellow"@,
            r.highlight.0@ == "magenta"@,
            r.text.0@ == "white"@,
            r.list_border_active.0@ == "cyan"@,
            r.list_border_inactive.0@ == "dark_gray"@,
            r.list_text_selected_fg.0@ == "green"@,
            r.list_text_selected_bg.0@ == "black"@,
            r.list_text_normal.0@ == "white"@,
            r.preview_border_active.0@ == "blue"@,
            r.preview_border_inactive.0@ == "dark_gray"@,
            r.preview_text.0@ == "white"@,
            r.search_match.0@ == "red"@,
            r.help_text.0@ == "white"@,
            r.editor_bg.0@ == "black"@,
            r.editor_fg.0@ == "white"@,
            r.editor_cursor.0@ == "cyan"@,
            r.editor_line_number.0@ == "dark_gray"@,
            r.md_header_fg.0@ == "yellow"@,
            r.md_code_bg.0@ == "dark_gray"@,
            r.md_list_marker.0@ == "cyan"@,
            r.editor_header.0@ == "blue"@,
            r.editor_list.0@ == "yellow"@,
            r.editor_checkbox.0@ == "yellow"@,
            r.editor_checkbox_checked.0@ == "green"@,
    {
        Theme {
            app_background: def("black"),
            border: def("cyan"),
            header: def("yellow"),
            highlight: def("magenta"),
            text: def("white"),
            list_border_active: def("cyan"),
            list_border_inactive: def("dark_gray"),
            list_text_selected_fg: def("green"),
            list_text_selected_bg: def("black"),
            list_text_normal: def("white"),
            preview_border_active: def("blue"),
            preview_border_inactive: def("dark_gray"),
            preview_text: def("white"),
            search_match: def("red"),
            help_text: def("white"),
            editor_bg: def("black"),
            editor_fg: def("white"),
            editor_cursor: def("cyan"),
            editor_line_number: def("dark_gray"),
            md_header_fg: def("yellow"),
            md_code_bg: def("dark_gray"),
            md_list_marker: def("cyan"),
            editor_header: def("blue"),
            editor_list: def("yellow"),
            editor_checkbox: def("yellow"),
            editor_checkbox_checked: def("green"),
        }
    }
}

/// The text of a generated theme file for `t`.
pub open spec fn theme_text(t: Theme) -> Seq<char> {
    "# Oxid Theme Configuration\n# Every visible color is configurable. Hex (#RRGGBB) or named colors.\n\n"@
        + "app_background = \""@ + t.app_background.0@ + "\"\n"@
        + "border = \""@ + t.border.0@ + "\"\n"@
        + "header = \""@ + t.header.0@ + "\"\n"@
        + "highlight = \""@ + t.highlight.0@ + "\"\n"@
        + "text = \""@ + t.text.0@ + "\"\n"@
        + "\n# Notes list\n"@
        + "list_border_active = \""@ + t.list_border_active.0@ + "\"\n"@
        + "list_border_inactive = \""@ + t.list_border_inactive.0@ + "\"\n"@
        + "list_text_selected_fg = \""@ + t.list_text_selected_fg.0@ + "\"\n"@
        + "list_text_selected_bg = \""@ + t.list_text_selected_bg.0@ + "\"\n"@
        + "list_text_normal = \""@ + t.list_text_normal.0@ + "\"\n"@
        + "\n# Preview pane\n"@
        + "preview_border_active = \""@ + t.preview_border_active.0@ + "\"\n"@
        + "preview_border_inactive = \""@ + t.preview_border_inactive.0@ + "\"\n"@
        + "preview_text = \""@ + t.preview_text.0@ + "\"\n"@
        + "\n# Search highlighting (list + preview)\n"@
        + "search_match = \""@ + t.search_match.0@ + "\"\n"@
        + "\n# Footer / help\n"@
        + "help_text = \""@ + t.help_text.0@ + "\"\n"@
        + "\n# Editor pane\n"@
        + "editor_bg = \""@ + t.editor_bg.0@ + "\"\n"@
        + "editor_fg = \""@ + t.editor_fg.0@ + "\"\n"@
        + "editor_cursor = \""@ + t.editor_cursor.0@ + "\"\n"@
        + "editor_line_number = \""@ + t.editor_line_number.0@ + "\"\n"@
        + "\n# Markdown preview (headers, code blocks, list markers)\n"@
        + "md_header_fg = \""@ + t.md_header_fg.0@ + "\"\n"@
        + "md_code_bg = \""@ + t.md_code_bg.0@ + "\"\n"@
        + "md_list_marker = \""@ + t.md_list_marker.0@ + "\"\n"@
        + "\n# Editor syntax highlighting\n"@
        + "editor_header = \""@ + t.editor_header.0@ + "\"\n"@
        + "editor_list = \""@ + t.editor_list.0@ + "\"\n"@
        + "editor_checkbox = \""@ + t.editor_checkbox.0@ + "\"\n"@
        + "editor_checkbox_checked = \""@ + t.editor_checkbox_checked.0@ + "\"\n"@
}

/// Write a theme out as the theme file's text.
pub fn generate_default_theme(t: &Theme) -> (r: String)
    ensures
        r@ == theme_text(*t),
{
    let mut out = String::new();
    out.append("# Oxid Theme Configuration\n# Every visible color is configurable. Hex (#RRGGBB) or named colors.\n\n");
    out.append("app_background = \"");
    out.append(t.app_background.0.as_str());
    out.append("\"\n");
    out.append("border = \"");
    out.append(t.border.0.as_str());
    out.append("\"\n");
    out.append("header = \"");
    out.append(t.header.0.as_str());
    out.append("\"\n");
    out.append("highlight = \"");
    out.append(t.highlight.0.as_str());
    out.append("\"\n");
    out.append("text = \"");
    out.append(t.text.0.as_str());
    out.append("\"\n");
    out.append("\n# Notes list\n");
    out.append("list_border_active = \"");
    out.append(t.list_border_active.0.as_str());
    out.append("\"\n");
    out.append("list_border_inactive = \"");
    out.append(t.list_border_inactive.0.as_str());
    out.append("\"\n");
    out.append("list_text_selected_fg = \"");
    out.append(t.list_text_selected_fg.0.as_str());
    out.append("\"\n");
    out.append("list_text_selected_bg = \"");
    out.append(t.list_text_selected_bg.0.as_str());
    out.append("\"\n");
    out.append("list_text_normal = \"");
    out.append(t.list_text_normal.0.as_str());
    out.append("\"\n");
    out.append("\n# Preview pane\n");
    out.append("preview_border_active = \"");
    out.append(t.preview_border_active.0.as_str());
    out.append("\"\n");
    out.append("preview_border_inactive = \"");
    out.append(t.preview_border_inactive.0.as_str());
    out.append("\"\n");
    out.append("preview_text = \"");
    out.append(t.preview_text.0.as_str());
    out.append("\"\n");
    out.append("\n# Search highlighting (list + preview)\n");
    out.append("search_match = \"");
    out.append(t.search_match.0.as_str());
    out.append("\"\n");
    out.append("\n# Footer / help\n");
    out.append("help_text = \"");
    out.append(t.help_text.0.as_str());
    out.append("\"\n");
    out.append("\n# Editor pane\n");
    out.append("editor_bg = \"");
    out.append(t.editor_bg.0.as_str());
    out.append("\"\n");
    out.append("editor_fg = \"");
    out.append(t.editor_fg.0.as_str());
    out.append("\"\n");
    out.append("editor_cursor = \"");
    out.append(t.editor_cursor.0.as_str());
    out.append("\"\n");
    out.append("editor_line_number = \"");
    out.append(t.editor_line_number.0.as_str());
    out.append("\"\n");
    out.append("\n# Markdown preview (headers, code blocks, list markers)\n");
    out.append("md_header_fg = \"");
    out.append(t.md_header_fg.0.as_str());
    out.append("\"\n");
    out.append("md_code_bg = \"");
    out.append(t.md_code_bg.0.as_str());
    out.append("\"\n");
    out.append("md_list_marker = \"");
    out.append(t.md_list_marker.0.as_str());
    out.append("\"\n");
    out.append("\n# Editor syntax highlighting\n");
    out.append("editor_header = \"");
    out.append(t.editor_header.0.as_str());
    out.append("\"\n");
    out.append("editor_list = \"");
    out.append(t.editor_list.0.as_str());
    out.append("\"\n");
    out.append("editor_checkbox = \"");
    out.append(t.editor_checkbox.0.as_str());
    out.append("\"\n");
    out.append("editor_checkbox_checked = \"");
    out.append(t.editor_checkbox_checked.0.as_str());
    out.append("\"\n");
    proof {
        assert(out@ =~= theme_text(*t));
    }
    out
}

} // verus!
